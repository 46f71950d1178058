//! Lucas–Pratt certificates for the BN254 base-field prime, continued (part 2).
use crate::primality::{is_prime, lemma_pratt_prime, mod_pow, pratt_witness, product};
use vstd::arithmetic::div_mod::lemma_fundamental_div_mod_converse;
use vstd::prelude::*;

verus! {

#[verifier::rlimit(100)]
pub proof fn lemma_pow_base_modulus_by_3()
    ensures
        mod_pow(3, 7296080957279758407415468581752425029565437052432607887563012631548408736194nat, 21888242871839275222246405745257275088696311157297823662689037894645226208583nat) == 21888242871839275220042445260109153167277707414472061641714758635765020556616nat,
{
    let m = 21888242871839275222246405745257275088696311157297823662689037894645226208583int;
    lemma_fundamental_div_mod_converse(1, m, 0, 1);
    assert(mod_pow(3, 0, 21888242871839275222246405745257275088696311157297823662689037894645226208583nat) == 1);
    lemma_fundamental_div_mod_converse(1int * 1int, m, 0int, 1int);
    lemma_fundamental_div_mod_converse(1int * 3, m, 0int, 3int);
    assert(mod_pow(3, 1, 21888242871839275222246405745257275088696311157297823662689037894645226208583nat) == 3);
    lemma_fundamental_div_mod_converse(3int * 3int, m, 0int, 9int);
    assert(mod_pow(3, 2, 21888242871839275222246405745257275088696311157297823662689037894645226208583nat) == 9);
    lemma_fundamental_div_mod_converse(9int * 9int, m, 0int, 81int);
    assert(mod_pow(3, 4, 21888242871839275222246405745257275088696311157297823662689037894645226208583nat) == 81);
    lemma_fundamental_div_mod_converse(81int * 81int, m, 0int, 6561int);
    assert(mod_pow(3, 8, 21888242871839275222246405745257275088696311157297823662689037894645226208583nat) == 6561);
    lemma_fundamental_div_mod_converse(6561int * 6561int, m, 0int, 43046721int);
    assert(mod_pow(3, 16, 21888242871839275222246405745257275088696311157297823662689037894645226208583nat) == 43046721);
    lemma_fundamental_div_mod_converse(43046721int * 43046721int, m, 0int, 1853020188851841int);
    assert(mod_pow(3, 32, 21888242871839275222246405745257275088696311157297823662689037894645226208583nat) == 1853020188851841);
    lemma_fundamental_div_mod_converse(1853020188851841int * 1853020188851841int, m, 0int, 3433683820292512484657849089281int);
    assert(mod_pow(3, 64, 21888242871839275222246405745257275088696311157297823662689037894645226208583nat) == 3433683820292512484657849089281nat);
    lemma_fundamental_div_mod_converse(3433683820292512484657849089281int * 3433683820292512484657849089281int, m, 0int, 11790184577738583171520872861412518665678211592275841109096961int);
    lemma_fundamental_div_mod_converse(11790184577738583171520872861412518665678211592275841109096961int * 3, m, 0int, 35370553733215749514562618584237555997034634776827523327290883int);
    assert(mod_pow(3, 129, 21888242871839275222246405745257275088696311157297823662689037894645226208583nat) == 35370553733215749514562618584237555997034634776827523327290883nat);
    lemma_fundamental_div_mod_converse(35370553733215749514562618584237555997034634776827523327290883int * 35370553733215749514562618584237555997034634776827523327290883int, m, 57157446521387868707014002441743112492412935038int, 2716731850913344138266930592498002165204768716446103996229398465144277888535int);
    assert(mod_pow(3, 258, 21888242871839275222246405745257275088696311157297823662689037894645226208583nat) == 2716731850913344138266930592498002165204768716446103996229398465144277888535nat);
    lemma_fundamental_div_mod_converse(2716731850913344138266930592498002165204768716446103996229398465144277888535int * 2716731850913344138266930592498002165204768716446103996229398465144277888535int, m, 337196183036818073154890140672551876410142862635595029995680740486814834231int, 9758869400009734228243444490034827562248448771056603948647475963288110041552int);
    assert(mod_pow(3, 516, 21888242871839275222246405745257275088696311157297823662689037894645226208583nat) == 9758869400009734228243444490034827562248448771056603948647475963288110041552nat);
    lemma_fundamental_div_mod_converse(9758869400009734228243444490034827562248448771056603948647475963288110041552int * 9758869400009734228243444490034827562248448771056603948647475963288110041552int, m, 4350990279305306406777549095904895736373980700678938900768931091491389731876int, 12677263506546878128041061571819625521447115076936495461068828363126746676996int);
    assert(mod_pow(3, 1032, 21888242871839275222246405745257275088696311157297823662689037894645226208583nat) == 12677263506546878128041061571819625521447115076936495461068828363126746676996nat);
    lemma_fundamental_div_mod_converse(12677263506546878128041061571819625521447115076936495461068828363126746676996int * 12677263506546878128041061571819625521447115076936495461068828363126746676996int, m, 7342435432366001005739630903272502786739342431712637505477732857765932767243int, 17950456158840183465131026916384558243849929396693303215170281914842047737347int);
    assert(mod_pow(3, 2064, 21888242871839275222246405745257275088696311157297823662689037894645226208583nat) == 17950456158840183465131026916384558243849929396693303215170281914842047737347nat);
    lemma_fundamental_div_mod_converse(17950456158840183465131026916384558243849929396693303215170281914842047737347int * 17950456158840183465131026916384558243849929396693303215170281914842047737347int, m, 14721093794376712835486073720257149613893725434526826110438769814292114506387int, 17430619001850632172424993186745783820463539910531043380561198319023750878788int);
    lemma_fundamental_div_mod_converse(17430619001850632172424993186745783820463539910531043380561198319023750878788int * 3, m, 2int, 8515371261873346072782168069722801283997997416997482816305519167780800219198int);
    assert(mod_pow(3, 4129, 21888242871839275222246405745257275088696311157297823662689037894645226208583nat) == 8515371261873346072782168069722801283997997416997482816305519167780800219198nat);
    lemma_fundamental_div_mod_converse(8515371261873346072782168069722801283997997416997482816305519167780800219198int * 8515371261873346072782168069722801283997997416997482816305519167780800219198int, m, 3312808074732647390987311919751559436610985152005807415009649676673694463399int, 16364010475004139346947447787212375389979727696566585234102983255349414609587int);
    assert(mod_pow(3, 8258, 21888242871839275222246405745257275088696311157297823662689037894645226208583nat) == 16364010475004139346947447787212375389979727696566585234102983255349414609587nat);
    lemma_fundamental_div_mod_converse(16364010475004139346947447787212375389979727696566585234102983255349414609587int * 16364010475004139346947447787212375389979727696566585234102983255349414609587int, m, 12234003450800685438606003613733297015254053552821064775296332595052816259870int, 3175774927592226471124507100767633932257273140220910497465888990381079846359int);
    lemma_fundamental_div_mod_converse(3175774927592226471124507100767633932257273140220910497465888990381079846359int * 3, m, 0int, 9527324782776679413373521302302901796771819420662731492397666971143239539077int);
    assert(mod_pow(3, 16517, 21888242871839275222246405745257275088696311157297823662689037894645226208583nat) == 9527324782776679413373521302302901796771819420662731492397666971143239539077nat);
    lemma_fundamental_div_mod_converse(9527324782776679413373521302302901796771819420662731492397666971143239539077int * 9527324782776679413373521302302901796771819420662731492397666971143239539077int, m, 4146971415110366042773727872259494022596711670835218056306917488639977388310int, 6838063132459227220068370569475369143551614031109016793159814606879764147199int);
    lemma_fundamental_div_mod_converse(6838063132459227220068370569475369143551614031109016793159814606879764147199int * 3, m, 0int, 20514189397377681660205111708426107430654842093327050379479443820639292441597int);
    assert(mod_pow(3, 33035, 21888242871839275222246405745257275088696311157297823662689037894645226208583nat) == 20514189397377681660205111708426107430654842093327050379479443820639292441597nat);
    lemma_fundamental_div_mod_converse(20514189397377681660205111708426107430654842093327050379479443820639292441597int * 20514189397377681660205111708426107430654842093327050379479443820639292441597int, m, 19226393324286074178281524226042119016689348955565286796201343618863920030313int, 19131545334249318671709598932103168961636103427143705160246587169286235133930int);
    assert(mod_pow(3, 66070, 21888242871839275222246405745257275088696311157297823662689037894645226208583nat) == 19131545334249318671709598932103168961636103427143705160246587169286235133930nat);
    lemma_fundamental_div_mod_converse(19131545334249318671709598932103168961636103427143705160246587169286235133930int * 19131545334249318671709598932103168961636103427143705160246587169286235133930int, m, 16722037900417378022323126627446067595928454749101592198103370893244398069746int, 14328217095614353151023427569663864946270215422307493282829670765709859414982int);
    lemma_fundamental_div_mod_converse(14328217095614353151023427569663864946270215422307493282829670765709859414982int * 3, m, 1int, 21096408415003784230823876963734319750114335109624656185799974402484352036363int);
    assert(mod_pow(3, 132141, 21888242871839275222246405745257275088696311157297823662689037894645226208583nat) == 21096408415003784230823876963734319750114335109624656185799974402484352036363nat);
    lemma_fundamental_div_mod_converse(21096408415003784230823876963734319750114335109624656185799974402484352036363int * 21096408415003784230823876963734319750114335109624656185799974402484352036363int, m, 20333219556204791539064769317775672014272632457837979856567693568306371061836int, 11419552591472281269803779197428710224405651512089676413247908804994747329381int);
    lemma_fundamental_div_mod_converse(11419552591472281269803779197428710224405651512089676413247908804994747329381int * 3, m, 1int, 12370414902577568587164931847028855584520643378971205577054688520339015779560int);
    assert(mod_pow(3, 264283, 21888242871839275222246405745257275088696311157297823662689037894645226208583nat) == 12370414902577568587164931847028855584520643378971205577054688520339015779560nat);
    lemma_fundamental_div_mod_converse(12370414902577568587164931847028855584520643378971205577054688520339015779560int * 12370414902577568587164931847028855584520643378971205577054688520339015779560int, m, 6991295087409375035586528112555326006232953508326246360012589327262678556912int, 18515374385241748776263855512471256350429397640932613660584694869290965417904int);
    lemma_fundamental_div_mod_converse(18515374385241748776263855512471256350429397640932613660584694869290965417904int * 3, m, 2int, 11769637412046695884298755046899218873895570608202193656376008818582443836546int);
    assert(mod_pow(3, 528567, 21888242871839275222246405745257275088696311157297823662689037894645226208583nat) == 11769637412046695884298755046899218873895570608202193656376008818582443836546nat);
    lemma_fundamental_div_mod_converse(11769637412046695884298755046899218873895570608202193656376008818582443836546int * 11769637412046695884298755046899218873895570608202193656376008818582443836546int, m, 6328711062927318640030301863520172359295629833864434316778357026254520605943int, 21734943784992238565780885447487469764218424498713368986622624207573897801347int);
    lemma_fundamental_div_mod_converse(21734943784992238565780885447487469764218424498713368986622624207573897801347int * 3, m, 2int, 21428345611298165252849844851947859115262651181544459634489796833431240986875int);
    assert(mod_pow(3, 1057135, 21888242871839275222246405745257275088696311157297823662689037894645226208583nat) == 21428345611298165252849844851947859115262651181544459634489796833431240986875nat);
    lemma_fundamental_div_mod_converse(21428345611298165252849844851947859115262651181544459634489796833431240986875int * 21428345611298165252849844851947859115262651181544459634489796833431240986875int, m, 20978111323316873408262797460429599404951314309884621578482411537882235505135int, 7500743501196376735473155745117888510959803102475987569612244694360044691920int);
    assert(mod_pow(3, 2114270, 21888242871839275222246405745257275088696311157297823662689037894645226208583nat) == 7500743501196376735473155745117888510959803102475987569612244694360044691920nat);
    lemma_fundamental_div_mod_converse(7500743501196376735473155745117888510959803102475987569612244694360044691920int * 7500743501196376735473155745117888510959803102475987569612244694360044691920int, m, 2570382346365660528892165198842915375119468436706669244657611549513449703155int, 2586523386219092325809369103472004970127378759831735739600239238000250107035int);
    lemma_fundamental_div_mod_converse(2586523386219092325809369103472004970127378759831735739600239238000250107035int * 3, m, 0int, 7759570158657276977428107310416014910382136279495207218800717714000750321105int);
    assert(mod_pow(3, 4228541, 21888242871839275222246405745257275088696311157297823662689037894645226208583nat) == 7759570158657276977428107310416014910382136279495207218800717714000750321105nat);
    lemma_fundamental_div_mod_converse(7759570158657276977428107310416014910382136279495207218800717714000750321105int * 7759570158657276977428107310416014910382136279495207218800717714000750321105int, m, 2750834290339038861957255212337892711349090443923867303550999650617648573538int, 19932387078827545750629886063254471494545212863119952933612978659138606144371int);
    lemma_fundamental_div_mod_converse(19932387078827545750629886063254471494545212863119952933612978659138606144371int * 3, m, 2int, 16020675492804086807396846699248864306243016274764211475460860188125366015947int);
    assert(mod_pow(3, 8457083, 21888242871839275222246405745257275088696311157297823662689037894645226208583nat) == 16020675492804086807396846699248864306243016274764211475460860188125366015947nat);
    lemma_fundamental_div_mod_converse(16020675492804086807396846699248864306243016274764211475460860188125366015947int * 16020675492804086807396846699248864306243016274764211475460860188125366015947int, m, 11726023178221710119157805522583594346032344444977188168561924155088347592581int, 4848330235656303968902849030195311013961903774870840225165005048949248984086int);
    lemma_fundamental_div_mod_converse(4848330235656303968902849030195311013961903774870840225165005048949248984086int * 3, m, 0int, 14544990706968911906708547090585933041885711324612520675495015146847746952258int);
    assert(mod_pow(3, 16914167, 21888242871839275222246405745257275088696311157297823662689037894645226208583nat) == 14544990706968911906708547090585933041885711324612520675495015146847746952258nat);
    lemma_fundamental_div_mod_converse(14544990706968911906708547090585933041885711324612520675495015146847746952258int * 14544990706968911906708547090585933041885711324612520675495015146847746952258int, m, 9665314657943341526317124634452565468119670585269996243280536321139533279131int, 12551858432719588521529001731805893408553045569514318659750332476879164317191int);
    lemma_fundamental_div_mod_converse(12551858432719588521529001731805893408553045569514318659750332476879164317191int * 3, m, 1int, 15767332426319490342340599450160405136962825551245132316561959535992266742990int);
    assert(mod_pow(3, 33828335, 21888242871839275222246405745257275088696311157297823662689037894645226208583nat) == 15767332426319490342340599450160405136962825551245132316561959535992266742990nat);
    lemma_fundamental_div_mod_converse(15767332426319490342340599450160405136962825551245132316561959535992266742990int * 15767332426319490342340599450160405136962825551245132316561959535992266742990int, m, 11358096366973261802335016908685777640295157373801637781501761180908533282807int, 7196695906458079180804978115016516066456237378574772894859726708955604407619int);
    assert(mod_pow(3, 67656670, 21888242871839275222246405745257275088696311157297823662689037894645226208583nat) == 7196695906458079180804978115016516066456237378574772894859726708955604407619nat);
    lemma_fundamental_div_mod_converse(7196695906458079180804978115016516066456237378574772894859726708955604407619int * 7196695906458079180804978115016516066456237378574772894859726708955604407619int, m, 2366221549773873707917756666735059194061993610843537522925465120305910941396int, 21148339136665274695538341561606031770148716033132161670475618499862520047293int);
    lemma_fundamental_div_mod_converse(21148339136665274695538341561606031770148716033132161670475618499862520047293int * 3, m, 2int, 19668531666317273642122213194303545133053525784800837686048779710297107724713int);
    assert(mod_pow(3, 135313341, 21888242871839275222246405745257275088696311157297823662689037894645226208583nat) == 19668531666317273642122213194303545133053525784800837686048779710297107724713nat);
    lemma_fundamental_div_mod_converse(19668531666317273642122213194303545133053525784800837686048779710297107724713int * 19668531666317273642122213194303545133053525784800837686048779710297107724713int, m, 17673923858302753686385361990578410047900875007720497315042640598948865678733int, 21651374703539555209153258982529861033687719898240737779241181264707265767030int);
    lemma_fundamental_div_mod_converse(21651374703539555209153258982529861033687719898240737779241181264707265767030int * 3, m, 2int, 21177638366940115182966965457075032923670537380126566012345468004831344883924int);
    assert(mod_pow(3, 270626683, 21888242871839275222246405745257275088696311157297823662689037894645226208583nat) == 21177638366940115182966965457075032923670537380126566012345468004831344883924nat);
    lemma_fundamental_div_mod_converse(21177638366940115182966965457075032923670537380126566012345468004831344883924int * 21177638366940115182966965457075032923670537380126566012345468004831344883924int, m, 20490103724950446358458389714598637780557057443722082945346430032428287329878int, 4544725973780132162606132078919617384233551553347879896796279789290477694902int);
    lemma_fundamental_div_mod_converse(4544725973780132162606132078919617384233551553347879896796279789290477694902int * 3, m, 0int, 13634177921340396487818396236758852152700654660043639690388839367871433084706int);
    assert(mod_pow(3, 541253367, 21888242871839275222246405745257275088696311157297823662689037894645226208583nat) == 13634177921340396487818396236758852152700654660043639690388839367871433084706nat);
    lemma_fundamental_div_mod_converse(13634177921340396487818396236758852152700654660043639690388839367871433084706int * 13634177921340396487818396236758852152700654660043639690388839367871433084706int, m, 8492724092984512730999015195108114970807105011210897328524356799171860290395int, 11373785458317533428698263935746239627617547515446829374896265799675349646151int);
    assert(mod_pow(3, 1082506734, 21888242871839275222246405745257275088696311157297823662689037894645226208583nat) == 11373785458317533428698263935746239627617547515446829374896265799675349646151nat);
    lemma_fundamental_div_mod_converse(11373785458317533428698263935746239627617547515446829374896265799675349646151int * 11373785458317533428698263935746239627617547515446829374896265799675349646151int, m, 5910159002222592522763370700553677602250650607807922484750720726592213460376int, 21323798375034878984991791352568058508548829973454716084183398742055727507593int);
    lemma_fundamental_div_mod_converse(21323798375034878984991791352568058508548829973454716084183398742055727507593int * 3, m, 2int, 20194909381426086510482562567189625348253867605768500927172120436876730105613int);
    assert(mod_pow(3, 2165013469, 21888242871839275222246405745257275088696311157297823662689037894645226208583nat) == 20194909381426086510482562567189625348253867605768500927172120436876730105613nat);
    lemma_fundamental_div_mod_converse(20194909381426086510482562567189625348253867605768500927172120436876730105613int * 20194909381426086510482562567189625348253867605768500927172120436876730105613int, m, 18632576735920553287406106892571914125427804418847573306613872143312180746992int, 12732305805091174344006295956481299144129887656663827194773974632925192273433int);
    assert(mod_pow(3, 4330026938, 21888242871839275222246405745257275088696311157297823662689037894645226208583nat) == 12732305805091174344006295956481299144129887656663827194773974632925192273433nat);
    lemma_fundamental_div_mod_converse(12732305805091174344006295956481299144129887656663827194773974632925192273433int * 12732305805091174344006295956481299144129887656663827194773974632925192273433int, m, 7406332799921830037575697925784130052667816530726069005274998575332341013539int, 13786674709876432442912631301458349800956056133513677659928897918722596600252int);
    assert(mod_pow(3, 8660053876, 21888242871839275222246405745257275088696311157297823662689037894645226208583nat) == 13786674709876432442912631301458349800956056133513677659928897918722596600252nat);
    lemma_fundamental_div_mod_converse(13786674709876432442912631301458349800956056133513677659928897918722596600252int * 13786674709876432442912631301458349800956056133513677659928897918722596600252int, m, 8683766927700148245183820740990853203417934953032623645221283225318892787758int, 4382250890600493683507894810396597916588344568764843498979791151191029536590int);
    assert(mod_pow(3, 17320107752, 21888242871839275222246405745257275088696311157297823662689037894645226208583nat) == 4382250890600493683507894810396597916588344568764843498979791151191029536590nat);
    lemma_fundamental_div_mod_converse(4382250890600493683507894810396597916588344568764843498979791151191029536590int * 4382250890600493683507894810396597916588344568764843498979791151191029536590int, m, 877371609069462604929528129016225275161716967910909381648898943223771161468int, 16199322145238004819179420479344057555601159228742154072883799764578208348256int);
    assert(mod_pow(3, 34640215504, 21888242871839275222246405745257275088696311157297823662689037894645226208583nat) == 16199322145238004819179420479344057555601159228742154072883799764578208348256nat);
    lemma_fundamental_div_mod_converse(16199322145238004819179420479344057555601159228742154072883799764578208348256int * 16199322145238004819179420479344057555601159228742154072883799764578208348256int, m, 11988995165199725909015950637537432951846280925696330496522390393061091814543int, 664894626801503072380599705166983616627036925737643078951441726896107418967int);
    assert(mod_pow(3, 69280431008, 21888242871839275222246405745257275088696311157297823662689037894645226208583nat) == 664894626801503072380599705166983616627036925737643078951441726896107418967nat);
    lemma_fundamental_div_mod_converse(664894626801503072380599705166983616627036925737643078951441726896107418967int * 664894626801503072380599705166983616627036925737643078951441726896107418967int, m, 20197366565147288675950410462440572478129547830292813297549415705427303756int, 12271634742650467107889617205607238588306088951267052858911396969286316009341int);
    assert(mod_pow(3, 138560862016, 21888242871839275222246405745257275088696311157297823662689037894645226208583nat) == 12271634742650467107889617205607238588306088951267052858911396969286316009341nat);
    lemma_fundamental_div_mod_converse(12271634742650467107889617205607238588306088951267052858911396969286316009341int * 12271634742650467107889617205607238588306088951267052858911396969286316009341int, m, 6880087183735257146289914690367970737204700403265576234537052239209022716116int, 9231947518666113152982562738695433415062958689104968976526430394708187630653int);
    lemma_fundamental_div_mod_converse(9231947518666113152982562738695433415062958689104968976526430394708187630653int * 3, m, 1int, 5807599684159064236701282470829025156492564910017083266890253289479336683376int);
    assert(mod_pow(3, 277121724033, 21888242871839275222246405745257275088696311157297823662689037894645226208583nat) == 5807599684159064236701282470829025156492564910017083266890253289479336683376nat);
    lemma_fundamental_div_mod_converse(5807599684159064236701282470829025156492564910017083266890253289479336683376int * 5807599684159064236701282470829025156492564910017083266890253289479336683376int, m, 1540928355415779948089377757586559609388115253391373619304189041435261149957int, 12099820295667723244064101137921508922556934514115334674274792366671951276445int);
    lemma_fundamental_div_mod_converse(12099820295667723244064101137921508922556934514115334674274792366671951276445int * 3, m, 1int, 14411218015163894509945897668507251678974492385048180360135339205370627620752int);
    assert(mod_pow(3, 554243448067, 21888242871839275222246405745257275088696311157297823662689037894645226208583nat) == 14411218015163894509945897668507251678974492385048180360135339205370627620752nat);
    lemma_fundamental_div_mod_converse(14411218015163894509945897668507251678974492385048180360135339205370627620752int * 14411218015163894509945897668507251678974492385048180360135339205370627620752int, m, 9488345222438255089859570437705926180263481811516499444258239541372797982522int, 2772204994245184216113498392740051293796063940979507298008299683226780659178int);
    assert(mod_pow(3, 1108486896134, 21888242871839275222246405745257275088696311157297823662689037894645226208583nat) == 2772204994245184216113498392740051293796063940979507298008299683226780659178nat);
    lemma_fundamental_div_mod_converse(2772204994245184216113498392740051293796063940979507298008299683226780659178int * 2772204994245184216113498392740051293796063940979507298008299683226780659178int, m, 351107239403185542549406582534460021397174073307393939384634049149213045243int, 17917260694986015898658288124310326076878771302420130323808900262943661715015int);
    assert(mod_pow(3, 2216973792268, 21888242871839275222246405745257275088696311157297823662689037894645226208583nat) == 17917260694986015898658288124310326076878771302420130323808900262943661715015nat);
    lemma_fundamental_div_mod_converse(17917260694986015898658288124310326076878771302420130323808900262943661715015int * 17917260694986015898658288124310326076878771302420130323808900262943661715015int, m, 14666697216939035027394339643390137902177482771034942639323584435422098719117int, 19675980511385596454675204617664221111306509996300983715156518858448504869014int);
    lemma_fundamental_div_mod_converse(19675980511385596454675204617664221111306509996300983715156518858448504869014int * 3, m, 2int, 15251455790478238919532802362478113156526907674307303820091480786055062189876int);
    assert(mod_pow(3, 4433947584537, 21888242871839275222246405745257275088696311157297823662689037894645226208583nat) == 15251455790478238919532802362478113156526907674307303820091480786055062189876nat);
    lemma_fundamental_div_mod_converse(15251455790478238919532802362478113156526907674307303820091480786055062189876int * 15251455790478238919532802362478113156526907674307303820091480786055062189876int, m, 10627024978244230339544576512588009491741084707539565775850401879823909588320int, 16754935603098898087688294245060989037468488306190104522450304402046696344816int);
    assert(mod_pow(3, 8867895169074, 21888242871839275222246405745257275088696311157297823662689037894645226208583nat) == 16754935603098898087688294245060989037468488306190104522450304402046696344816nat);
    lemma_fundamental_div_mod_converse(16754935603098898087688294245060989037468488306190104522450304402046696344816int * 16754935603098898087688294245060989037468488306190104522450304402046696344816int, m, 12825509507899634976016634639742687961496502864505156914671805968880848226149int, 11398677721992162177626811695490877644399205265054511778328633837994541236989int);
    lemma_fundamental_div_mod_converse(11398677721992162177626811695490877644399205265054511778328633837994541236989int * 3, m, 1int, 12307790294137211310634029341215357844501304637865711672296863619338397502384int);
    assert(mod_pow(3, 17735790338149, 21888242871839275222246405745257275088696311157297823662689037894645226208583nat) == 12307790294137211310634029341215357844501304637865711672296863619338397502384nat);
    lemma_fundamental_div_mod_converse(12307790294137211310634029341215357844501304637865711672296863619338397502384int * 12307790294137211310634029341215357844501304637865711672296863619338397502384int, m, 6920688097780097976926977183412819267971276422675381941560682455233080695193int, 6712262971562896124281143444406454402225692715585555121174676951460022241937int);
    lemma_fundamental_div_mod_converse(6712262971562896124281143444406454402225692715585555121174676951460022241937int * 3, m, 0int, 20136788914688688372843430333219363206677078146756665363524030854380066725811int);
    assert(mod_pow(3, 35471580676299, 21888242871839275222246405745257275088696311157297823662689037894645226208583nat) == 20136788914688688372843430333219363206677078146756665363524030854380066725811nat);
    lemma_fundamental_div_mod_converse(20136788914688688372843430333219363206677078146756665363524030854380066725811int * 20136788914688688372843430333219363206677078146756665363524030854380066725811int, m, 18525482843413633165949116594067009522461075270647438387666328234581185366477int, 13982528961587393077289255031760232783177261176720634931342718900817755735630int);
    lemma_fundamental_div_mod_converse(13982528961587393077289255031760232783177261176720634931342718900817755735630int * 3, m, 1int, 20059344012922904009621359350023423260835472372864081131339118807808040998307int);
    assert(mod_pow(3, 70943161352599, 21888242871839275222246405745257275088696311157297823662689037894645226208583nat) == 20059344012922904009621359350023423260835472372864081131339118807808040998307nat);
    lemma_fundamental_div_mod_converse(20059344012922904009621359350023423260835472372864081131339118807808040998307int * 20059344012922904009621359350023423260835472372864081131339118807808040998307int, m, 18383261031266786088254550415768074918342271887328441132817291311475917669447int, 18601320426971260619840553958167296292080437300628531038264874057027908602648int);
    lemma_fundamental_div_mod_converse(18601320426971260619840553958167296292080437300628531038264874057027908602648int * 3, m, 2int, 12027475537235231415028850383987338698848689587289945789416546381793273390778int);
    assert(mod_pow(3, 141886322705199, 21888242871839275222246405745257275088696311157297823662689037894645226208583nat) == 12027475537235231415028850383987338698848689587289945789416546381793273390778nat);
    lemma_fundamental_div_mod_converse(12027475537235231415028850383987338698848689587289945789416546381793273390778int * 12027475537235231415028850383987338698848689587289945789416546381793273390778int, m, 6609035208801851340483539343126941940105673518057062198462028236247045669455int, 6021068718506493883314005820131874989325228694138920878566803345126793513019int);
    assert(mod_pow(3, 283772645410398, 21888242871839275222246405745257275088696311157297823662689037894645226208583nat) == 6021068718506493883314005820131874989325228694138920878566803345126793513019nat);
    lemma_fundamental_div_mod_converse(6021068718506493883314005820131874989325228694138920878566803345126793513019int * 6021068718506493883314005820131874989325228694138920878566803345126793513019int, m, 1656289576337794907654642555616896033181697711513772960094098545301151036394int, 4974730888786908235522870399100835143311040283825596968340624659357654324659int);
    assert(mod_pow(3, 567545290820796, 21888242871839275222246405745257275088696311157297823662689037894645226208583nat) == 4974730888786908235522870399100835143311040283825596968340624659357654324659nat);
    lemma_fundamental_div_mod_converse(4974730888786908235522870399100835143311040283825596968340624659357654324659int * 4974730888786908235522870399100835143311040283825596968340624659357654324659int, m, 1130650256430154685755965415902304282140391417803294806013070536565554862381int, 15263284885067024141408961023743679096723321466608766516808452807512409450158int);
    assert(mod_pow(3, 1135090581641592, 21888242871839275222246405745257275088696311157297823662689037894645226208583nat) == 15263284885067024141408961023743679096723321466608766516808452807512409450158nat);
    lemma_fundamental_div_mod_converse(15263284885067024141408961023743679096723321466608766516808452807512409450158int * 15263284885067024141408961023743679096723321466608766516808452807512409450158int, m, 10643516103453174307149738391587800197031800655111307002166902883886575289919int, 1301136229640933158921219970489376130138792464008435791755983310413495050187int);
    assert(mod_pow(3, 2270181163283184, 21888242871839275222246405745257275088696311157297823662689037894645226208583nat) == 1301136229640933158921219970489376130138792464008435791755983310413495050187nat);
    lemma_fundamental_div_mod_converse(1301136229640933158921219970489376130138792464008435791755983310413495050187int * 1301136229640933158921219970489376130138792464008435791755983310413495050187int, m, 77345426857554035406098005196941862538776976824933265701648324939103441484int, 10283456708727167919619979211671484630193989362668689492588801865181129677797int);
    assert(mod_pow(3, 4540362326566368, 21888242871839275222246405745257275088696311157297823662689037894645226208583nat) == 10283456708727167919619979211671484630193989362668689492588801865181129677797nat);
    lemma_fundamental_div_mod_converse(10283456708727167919619979211671484630193989362668689492588801865181129677797int * 10283456708727167919619979211671484630193989362668689492588801865181129677797int, m, 4831337193188757692019165484521242608026869312314864598391408240435527164355int, 15296055847459955294312308762877585862774310592455879732933809707163282114244int);
    assert(mod_pow(3, 9080724653132736, 21888242871839275222246405745257275088696311157297823662689037894645226208583nat) == 15296055847459955294312308762877585862774310592455879732933809707163282114244nat);
    lemma_fundamental_div_mod_converse(15296055847459955294312308762877585862774310592455879732933809707163282114244int * 15296055847459955294312308762877585862774310592455879732933809707163282114244int, m, 10689269388070956781085115988144454332731457675292393250611561014798566959662int, 18643762115950021554486071047754632106742995117863906770582635175624908512590int);
    assert(mod_pow(3, 18161449306265472, 21888242871839275222246405745257275088696311157297823662689037894645226208583nat) == 18643762115950021554486071047754632106742995117863906770582635175624908512590nat);
    lemma_fundamental_div_mod_converse(18643762115950021554486071047754632106742995117863906770582635175624908512590int * 18643762115950021554486071047754632106742995117863906770582635175624908512590int, m, 15880208743632473705805524375226835570043111392070799281295816506586867435179int, 4371516592606556600879199683993555734444684407219792279007161442070502566743int);
    assert(mod_pow(3, 36322898612530944, 21888242871839275222246405745257275088696311157297823662689037894645226208583nat) == 4371516592606556600879199683993555734444684407219792279007161442070502566743nat);
    lemma_fundamental_div_mod_converse(4371516592606556600879199683993555734444684407219792279007161442070502566743int * 4371516592606556600879199683993555734444684407219792279007161442070502566743int, m, 873078640041086452186686576004431355769395657609750332576697653365035919884int, 15308156223560892900142081527428029685253984633652520069473476150990108463677int);
    assert(mod_pow(3, 72645797225061888, 21888242871839275222246405745257275088696311157297823662689037894645226208583nat) == 15308156223560892900142081527428029685253984633652520069473476150990108463677nat);
    lemma_fundamental_div_mod_converse(15308156223560892900142081527428029685253984633652520069473476150990108463677int * 15308156223560892900142081527428029685253984633652520069473476150990108463677int, m, 10706188173123760270907191455179630932070070446418800433654932239285487675389int, 10519669429193716840003255111369995394791697849124146131774848453410518696542int);
    lemma_fundamental_div_mod_converse(10519669429193716840003255111369995394791697849124146131774848453410518696542int * 3, m, 1int, 9670765415741875297763359588852711095678782390074614732635507465586329881043int);
    assert(mod_pow(3, 145291594450123777, 21888242871839275222246405745257275088696311157297823662689037894645226208583nat) == 9670765415741875297763359588852711095678782390074614732635507465586329881043nat);
    lemma_fundamental_div_mod_converse(9670765415741875297763359588852711095678782390074614732635507465586329881043int * 9670765415741875297763359588852711095678782390074614732635507465586329881043int, m, 4272782620053699311229635531324059646087695657424833990708654099834296993161int, 740221311222669370009907612288688710435899597972850083489641013429420266986int);
    lemma_fundamental_div_mod_converse(740221311222669370009907612288688710435899597972850083489641013429420266986int * 3, m, 0int, 2220663933668008110029722836866066131307698793918550250468923040288260800958int);
    assert(mod_pow(3, 290583188900247555, 21888242871839275222246405745257275088696311157297823662689037894645226208583nat) == 2220663933668008110029722836866066131307698793918550250468923040288260800958nat);
    lemma_fundamental_div_mod_converse(2220663933668008110029722836866066131307698793918550250468923040288260800958int * 2220663933668008110029722836866066131307698793918550250468923040288260800958int, m, 225296673431853643084941173842054921572756664927394302006113994167938415337int, 7010534069697466296619078991158877905718371794098665817433576225618045480293int);
    assert(mod_pow(3, 581166377800495110, 21888242871839275222246405745257275088696311157297823662689037894645226208583nat) == 7010534069697466296619078991158877905718371794098665817433576225618045480293nat);
    lemma_fundamental_div_mod_converse(7010534069697466296619078991158877905718371794098665817433576225618045480293int * 7010534069697466296619078991158877905718371794098665817433576225618045480293int, m, 2245387545732172952315894640370084093566525146235273653109253086020137221245int, 12950626443996081894151752633844440095507272181561156716049525477296662420014int);
    lemma_fundamental_div_mod_converse(12950626443996081894151752633844440095507272181561156716049525477296662420014int * 3, m, 1int, 16963636460148970460208852156276045197825505387385646485459538537244761051459int);
    assert(mod_pow(3, 1162332755600990221, 21888242871839275222246405745257275088696311157297823662689037894645226208583nat) == 16963636460148970460208852156276045197825505387385646485459538537244761051459nat);
    lemma_fundamental_div_mod_converse(16963636460148970460208852156276045197825505387385646485459538537244761051459int * 16963636460148970460208852156276045197825505387385646485459538537244761051459int, m, 13147010641147665689332383828919785448351097103012218671932748381704466240064int, 244653273279832458099721568218075429252226404317685396110502787099030759369int);
    lemma_fundamental_div_mod_converse(244653273279832458099721568218075429252226404317685396110502787099030759369int * 3, m, 0int, 733959819839497374299164704654226287756679212953056188331508361297092278107int);
    assert(mod_pow(3, 2324665511201980443, 21888242871839275222246405745257275088696311157297823662689037894645226208583nat) == 733959819839497374299164704654226287756679212953056188331508361297092278107nat);
    lemma_fundamental_div_mod_converse(733959819839497374299164704654226287756679212953056188331508361297092278107int * 733959819839497374299164704654226287756679212953056188331508361297092278107int, m, 24611249989001998916263518959354142408006779188880294827496970096672927023int, 20150792359247115267437838425425486340046594107043817382139317717135696265040int);
    lemma_fundamental_div_mod_converse(20150792359247115267437838425425486340046594107043817382139317717135696265040int * 3, m, 2int, 16675891334062795357820703785761908842747160006535804821039877362116636377954int);
    assert(mod_pow(3, 4649331022403960887, 21888242871839275222246405745257275088696311157297823662689037894645226208583nat) == 16675891334062795357820703785761908842747160006535804821039877362116636377954nat);
    lemma_fundamental_div_mod_converse(16675891334062795357820703785761908842747160006535804821039877362116636377954int * 16675891334062795357820703785761908842747160006535804821039877362116636377954int, m, 12704781896551710097879916806414308581718812165314038492210958226886936980976int, 20562356915588954466883038004261853885293371561799537279613255569031458309108int);
    lemma_fundamental_div_mod_converse(20562356915588954466883038004261853885293371561799537279613255569031458309108int * 3, m, 2int, 17910585003088312956156302522271011478487492370802964513461690917803922510158int);
    assert(mod_pow(3, 9298662044807921775nat, 21888242871839275222246405745257275088696311157297823662689037894645226208583nat) == 17910585003088312956156302522271011478487492370802964513461690917803922510158nat);
    lemma_fundamental_div_mod_converse(17910585003088312956156302522271011478487492370802964513461690917803922510158int * 17910585003088312956156302522271011478487492370802964513461690917803922510158int, m, 14655770087674287060760112371172607636916415389475030868906566148740108117772int, 17401751243826556491707052074493253237215687914309426686674216887211611947888int);
    assert(mod_pow(3, 18597324089615843550nat, 21888242871839275222246405745257275088696311157297823662689037894645226208583nat) == 17401751243826556491707052074493253237215687914309426686674216887211611947888nat);
    lemma_fundamental_div_mod_converse(17401751243826556491707052074493253237215687914309426686674216887211611947888int * 17401751243826556491707052074493253237215687914309426686674216887211611947888int, m, 13834867792956510466067817994723252781351832850983192040705447475678289262146int, 7079467888198900821388770865215658459898961649349712124642338414929465461426int);
    lemma_fundamental_div_mod_converse(7079467888198900821388770865215658459898961649349712124642338414929465461426int * 3, m, 0int, 21238403664596702464166312595646975379696884948049136373927015244788396384278int);
    assert(mod_pow(3, 37194648179231687101nat, 21888242871839275222246405745257275088696311157297823662689037894645226208583nat) == 21238403664596702464166312595646975379696884948049136373927015244788396384278nat);
    lemma_fundamental_div_mod_converse(21238403664596702464166312595646975379696884948049136373927015244788396384278int * 21238403664596702464166312595646975379696884948049136373927015244788396384278int, m, 20607857508776405440141863409082941071827532815445202395641462337517785202504int, 7402361809107911470493601065107317137561551450026535693835818287587047689452int);
    assert(mod_pow(3, 74389296358463374202nat, 21888242871839275222246405745257275088696311157297823662689037894645226208583nat) == 7402361809107911470493601065107317137561551450026535693835818287587047689452nat);
    lemma_fundamental_div_mod_converse(7402361809107911470493601065107317137561551450026535693835818287587047689452int * 7402361809107911470493601065107317137561551450026535693835818287587047689452int, m, 2503396945738244908424560392499243754750046987789175889084624465341962402600int, 3474958034649039752654194815228283424226018363317515059140195136400410544504int);
    assert(mod_pow(3, 148778592716926748404nat, 21888242871839275222246405745257275088696311157297823662689037894645226208583nat) == 3474958034649039752654194815228283424226018363317515059140195136400410544504nat);
    lemma_fundamental_div_mod_converse(3474958034649039752654194815228283424226018363317515059140195136400410544504int * 3474958034649039752654194815228283424226018363317515059140195136400410544504int, m, 551681257069184891379921226757582258088791626324288753332911915137310667613int, 8565804848721464768944592278977476083286943747158907280525334309053243883637int);
    assert(mod_pow(3, 297557185433853496808nat, 21888242871839275222246405745257275088696311157297823662689037894645226208583nat) == 8565804848721464768944592278977476083286943747158907280525334309053243883637nat);
    lemma_fundamental_div_mod_converse(8565804848721464768944592278977476083286943747158907280525334309053243883637int * 8565804848721464768944592278977476083286943747158907280525334309053243883637int, m, 3352165504375847643471733197234458092186994287222517762767006851982500580556int, 18404887760292129701143733110121532647426375579800398100739799091006146235621int);
    assert(mod_pow(3, 595114370867706993616nat, 21888242871839275222246405745257275088696311157297823662689037894645226208583nat) == 18404887760292129701143733110121532647426375579800398100739799091006146235621nat);
    lemma_fundamental_div_mod_converse(18404887760292129701143733110121532647426375579800398100739799091006146235621int * 18404887760292129701143733110121532647426375579800398100739799091006146235621int, m, 15475883352188271727170181411778053653645880604626204070995150618088067713271int, 19249354343635104785879650752752700107931966620945185079374374933886766050648int);
    assert(mod_pow(3, 1190228741735413987232nat, 21888242871839275222246405745257275088696311157297823662689037894645226208583nat) == 19249354343635104785879650752752700107931966620945185079374374933886766050648nat);
    lemma_fundamental_div_mod_converse(19249354343635104785879650752752700107931966620945185079374374933886766050648int * 19249354343635104785879650752752700107931966620945185079374374933886766050648int, m, 16928615276082565377794886414555031447560385868279798257243708168239661408700int, 10432891088055280361853373644782620485916308908160832817687335926689490347804int);
    assert(mod_pow(3, 2380457483470827974464nat, 21888242871839275222246405745257275088696311157297823662689037894645226208583nat) == 10432891088055280361853373644782620485916308908160832817687335926689490347804nat);
    lemma_fundamental_div_mod_converse(10432891088055280361853373644782620485916308908160832817687335926689490347804int * 10432891088055280361853373644782620485916308908160832817687335926689490347804int, m, 4972770865735418326605494532055354866617846111470599835213419106048820229500int, 6760883538189645895583999833996766893127403497203452003915601342443957823916int);
    lemma_fundamental_div_mod_converse(6760883538189645895583999833996766893127403497203452003915601342443957823916int * 3, m, 0int, 20282650614568937686751999501990300679382210491610356011746804027331873471748int);
    assert(mod_pow(3, 4760914966941655948929nat, 21888242871839275222246405745257275088696311157297823662689037894645226208583nat) == 20282650614568937686751999501990300679382210491610356011746804027331873471748nat);
    lemma_fundamental_div_mod_converse(20282650614568937686751999501990300679382210491610356011746804027331873471748int * 20282650614568937686751999501990300679382210491610356011746804027331873471748int, m, 18794835125022752961061203619469588049263901638917506814067029027746198811093int, 11332834670667110980935704119628709185264343361358026011385133028391921964285int);
    lemma_fundamental_div_mod_converse(11332834670667110980935704119628709185264343361358026011385133028391921964285int * 3, m, 1int, 12110261140162057720560706613628852467096718926776254371466361190530539684272int);
    assert(mod_pow(3, 9521829933883311897859nat, 21888242871839275222246405745257275088696311157297823662689037894645226208583nat) == 12110261140162057720560706613628852467096718926776254371466361190530539684272nat);
    lemma_fundamental_div_mod_converse(12110261140162057720560706613628852467096718926776254371466361190530539684272int * 12110261140162057720560706613628852467096718926776254371466361190530539684272int, m, 6700328835970901003740940822411590994188553808875614918505078316417412025091int, 3551377849292556164640939276422544364544071865761324829631400999015448613931int);
    assert(mod_pow(3, 19043659867766623795718nat, 21888242871839275222246405745257275088696311157297823662689037894645226208583nat) == 3551377849292556164640939276422544364544071865761324829631400999015448613931nat);
    lemma_fundamental_div_mod_converse(3551377849292556164640939276422544364544071865761324829631400999015448613931int * 3551377849292556164640939276422544364544071865761324829631400999015448613931int, m, 576212750484068798701439495665967347697545976875119310296385477836715142963int, 3239397181394063928532137420218000533857220678122942771857165439389784621332int);
    lemma_fundamental_div_mod_converse(3239397181394063928532137420218000533857220678122942771857165439389784621332int * 3, m, 0int, 9718191544182191785596412260654001601571662034368828315571496318169353863996int);
    assert(mod_pow(3, 38087319735533247591437nat, 21888242871839275222246405745257275088696311157297823662689037894645226208583nat) == 9718191544182191785596412260654001601571662034368828315571496318169353863996nat);
    lemma_fundamental_div_mod_converse(9718191544182191785596412260654001601571662034368828315571496318169353863996int * 9718191544182191785596412260654001601571662034368828315571496318169353863996int, m, 4314793446070628354732932164949472057602785232714300313776017479681169259878int, 16891053141902322754192089489700622642270956327151742726562366563005503955142int);
    assert(mod_pow(3, 76174639471066495182874nat, 21888242871839275222246405745257275088696311157297823662689037894645226208583nat) == 16891053141902322754192089489700622642270956327151742726562366563005503955142nat);
    lemma_fundamental_div_mod_converse(16891053141902322754192089489700622642270956327151742726562366563005503955142int * 16891053141902322754192089489700622642270956327151742726562366563005503955142int, m, 13034745544131192498824418813067280561507014705732144580879576143120967777019int, 17185130771850750593921985439717186295072632710650285833222153932522020286087int);
    lemma_fundamental_div_mod_converse(17185130771850750593921985439717186295072632710650285833222153932522020286087int * 3, m, 2int, 7778906571873701337273144828637008707825275817355210174288386008275608441095int);
    assert(mod_pow(3, 152349278942132990365749nat, 21888242871839275222246405745257275088696311157297823662689037894645226208583nat) == 7778906571873701337273144828637008707825275817355210174288386008275608441095nat);
    lemma_fundamental_div_mod_converse(7778906571873701337273144828637008707825275817355210174288386008275608441095int * 7778906571873701337273144828637008707825275817355210174288386008275608441095int, m, 2764561221668090492710120817750277824488866554345275161452391925279104934667int, 3690304714618039486091842944863622187055404409060150786582427957821755152164int);
    lemma_fundamental_div_mod_converse(3690304714618039486091842944863622187055404409060150786582427957821755152164int * 3, m, 0int, 11070914143854118458275528834590866561166213227180452359747283873465265456492int);
    assert(mod_pow(3, 304698557884265980731499nat, 21888242871839275222246405745257275088696311157297823662689037894645226208583nat) == 11070914143854118458275528834590866561166213227180452359747283873465265456492nat);
    lemma_fundamental_div_mod_converse(11070914143854118458275528834590866561166213227180452359747283873465265456492int * 11070914143854118458275528834590866561166213227180452359747283873465265456492int, m, 5599587901972598379062137924844494258903192405587343754745290185359344159973int, 6097174147145994148271127460216725683489705014085587562855507403887327297805int);
    assert(mod_pow(3, 609397115768531961462998nat, 21888242871839275222246405745257275088696311157297823662689037894645226208583nat) == 6097174147145994148271127460216725683489705014085587562855507403887327297805nat);
    lemma_fundamental_div_mod_converse(6097174147145994148271127460216725683489705014085587562855507403887327297805int * 6097174147145994148271127460216725683489705014085587562855507403887327297805int, m, 1698424711307199170052291374946289920440788786499101924803878813894046933296int, 21249746676786796494589014550680490134874503897849575971186750591086774138457int);
    assert(mod_pow(3, 1218794231537063922925996nat, 21888242871839275222246405745257275088696311157297823662689037894645226208583nat) == 21249746676786796494589014550680490134874503897849575971186750591086774138457nat);
    lemma_fundamental_div_mod_converse(21249746676786796494589014550680490134874503897849575971186750591086774138457int * 21249746676786796494589014550680490134874503897849575971186750591086774138457int, m, 20629875886865444024153025592257306703580227971215422970049428242149752668908int, 5038707531476013752905704988886293933898053024724496291795959656260459503485int);
    assert(mod_pow(3, 2437588463074127845851992nat, 21888242871839275222246405745257275088696311157297823662689037894645226208583nat) == 5038707531476013752905704988886293933898053024724496291795959656260459503485nat);
    lemma_fundamental_div_mod_converse(5038707531476013752905704988886293933898053024724496291795959656260459503485int * 5038707531476013752905704988886293933898053024724496291795959656260459503485int, m, 1159918305750218273454367956200610128166376495642643530938784426664007915726int, 16197322847283106731047745434657018627125426303343095183186195940665565268967int);
    assert(mod_pow(3, 4875176926148255691703984nat, 21888242871839275222246405745257275088696311157297823662689037894645226208583nat) == 16197322847283106731047745434657018627125426303343095183186195940665565268967nat);
    lemma_fundamental_div_mod_converse(16197322847283106731047745434657018627125426303343095183186195940665565268967int * 16197322847283106731047745434657018627125426303343095183186195940665565268967int, m, 11986036017384236407425727580081084213538694130813800767715605817521755005570int, 15015824470079927159584602035268669715081811791587696935892714270981906439779int);
    assert(mod_pow(3, 9750353852296511383407968nat, 21888242871839275222246405745257275088696311157297823662689037894645226208583nat) == 15015824470079927159584602035268669715081811791587696935892714270981906439779nat);
    lemma_fundamental_div_mod_converse(15015824470079927159584602035268669715081811791587696935892714270981906439779int * 15015824470079927159584602035268669715081811791587696935892714270981906439779int, m, 10301191641396676386193161047921226077164727268981814786013080274431677522745int, 14202318282790931552972179774649410742543951729218873419229807036212856848506int);
    lemma_fundamental_div_mod_converse(14202318282790931552972179774649410742543951729218873419229807036212856848506int * 3, m, 1int, 20718711976533519436670133578690957138935544030358796595000383213993344336935int);
    assert(mod_pow(3, 19500707704593022766815937nat, 21888242871839275222246405745257275088696311157297823662689037894645226208583nat) == 20718711976533519436670133578690957138935544030358796595000383213993344336935nat);
    lemma_fundamental_div_mod_converse(20718711976533519436670133578690957138935544030358796595000383213993344336935int * 20718711976533519436670133578690957138935544030358796595000383213993344336935int, m, 19611671365307828131348176880077731913600992714472911533980097376028151359169int, 3827141947695755680339544497702710881930328831085011734676392993762661646698int);
    lemma_fundamental_div_mod_converse(3827141947695755680339544497702710881930328831085011734676392993762661646698int * 3, m, 0int, 11481425843087267041018633493108132645790986493255035204029178981287984940094int);
    assert(mod_pow(3, 39001415409186045533631875nat, 21888242871839275222246405745257275088696311157297823662689037894645226208583nat) == 11481425843087267041018633493108132645790986493255035204029178981287984940094nat);
    lemma_fundamental_div_mod_converse(11481425843087267041018633493108132645790986493255035204029178981287984940094int * 11481425843087267041018633493108132645790986493255035204029178981287984940094int, m, 6022554672943238644922152678786721909060194578425489368996998972868590295077int, 2806667225014084174717490995675694250163457068270693213672806730422848682945int);
    lemma_fundamental_div_mod_converse(2806667225014084174717490995675694250163457068270693213672806730422848682945int * 3, m, 0int, 8420001675042252524152472987027082750490371204812079641018420191268546048835int);
    assert(mod_pow(3, 78002830818372091067263751nat, 21888242871839275222246405745257275088696311157297823662689037894645226208583nat) == 8420001675042252524152472987027082750490371204812079641018420191268546048835nat);
    lemma_fundamental_div_mod_converse(8420001675042252524152472987027082750490371204812079641018420191268546048835int * 8420001675042252524152472987027082750490371204812079641018420191268546048835int, m, 3239018710767662978429292545295900802033321306003582678587704412939285689674int, 21454392155050395875403902731107948828426726899346313498165416238266871585283int);
    lemma_fundamental_div_mod_converse(21454392155050395875403902731107948828426726899346313498165416238266871585283int * 3, m, 2int, 20586690721472637181718896702809296307887558383443293169118172925510162338683int);
    assert(mod_pow(3, 156005661636744182134527503nat, 21888242871839275222246405745257275088696311157297823662689037894645226208583nat) == 20586690721472637181718896702809296307887558383443293169118172925510162338683nat);
    lemma_fundamental_div_mod_converse(20586690721472637181718896702809296307887558383443293169118172925510162338683int * 20586690721472637181718896702809296307887558383443293169118172925510162338683int, m, 19362533454287943159387031512659231832251436722965267771307360223116616243732int, 20493068373250561947505593405567802415868524349504580193239896141118599822733int);
    assert(mod_pow(3, 312011323273488364269055006nat, 21888242871839275222246405745257275088696311157297823662689037894645226208583nat) == 20493068373250561947505593405567802415868524349504580193239896141118599822733nat);
    lemma_fundamental_div_mod_converse(20493068373250561947505593405567802415868524349504580193239896141118599822733int * 20493068373250561947505593405567802415868524349504580193239896141118599822733int, m, 19186823438031075923897766594400999685211844530890494896537072580023821303708int, 12430219497273548403420912867523529129276270676543778999972670091282024263525int);
    assert(mod_pow(3, 624022646546976728538110012nat, 21888242871839275222246405745257275088696311157297823662689037894645226208583nat) == 12430219497273548403420912867523529129276270676543778999972670091282024263525nat);
    lemma_fundamental_div_mod_converse(12430219497273548403420912867523529129276270676543778999972670091282024263525int * 12430219497273548403420912867523529129276270676543778999972670091282024263525int, m, 7059057122816726016427271429281872435093641693391877317483896615389707753897int, 13841795364911680327371397795253484538484534906192115023970670801460492327674int);
    lemma_fundamental_div_mod_converse(13841795364911680327371397795253484538484534906192115023970670801460492327674int * 3, m, 1int, 19637143222895765759867787640503178526757293561278521409222974509736250774439int);
    assert(mod_pow(3, 1248045293093953457076220025nat, 21888242871839275222246405745257275088696311157297823662689037894645226208583nat) == 19637143222895765759867787640503178526757293561278521409222974509736250774439nat);
    lemma_fundamental_div_mod_converse(19637143222895765759867787640503178526757293561278521409222974509736250774439int * 19637143222895765759867787640503178526757293561278521409222974509736250774439int, m, 17617558257846467506070652683778185749612375819858196067311776826463331824746int, 12847896917768021755755653961171455853747895695591929184740294685322658769803int);
    lemma_fundamental_div_mod_converse(12847896917768021755755653961171455853747895695591929184740294685322658769803int * 3, m, 1int, 16655447881464790045020556138257092472547375929477963891531846161322750100826int);
    assert(mod_pow(3, 2496090586187906914152440051nat, 21888242871839275222246405745257275088696311157297823662689037894645226208583nat) == 16655447881464790045020556138257092472547375929477963891531846161322750100826nat);
    lemma_fundamental_div_mod_converse(16655447881464790045020556138257092472547375929477963891531846161322750100826int * 16655447881464790045020556138257092472547375929477963891531846161322750100826int, m, 12673650678880631007592597075657885752807975289234572160448447986385938995576int, 15640827026267395098346239741264078839348418321389833890867109913359475653468int);
    lemma_fundamental_div_mod_converse(15640827026267395098346239741264078839348418321389833890867109913359475653468int * 3, m, 2int, 3145995335123634850545907733277686340652632649573854347223253950787974543238int);
    assert(mod_pow(3, 4992181172375813828304880103nat, 21888242871839275222246405745257275088696311157297823662689037894645226208583nat) == 3145995335123634850545907733277686340652632649573854347223253950787974543238nat);
    lemma_fundamental_div_mod_converse(3145995335123634850545907733277686340652632649573854347223253950787974543238int * 3145995335123634850545907733277686340652632649573854347223253950787974543238int, m, 452173648957139873076406966387015155187103922592158812174952403719934404680int, 10352529277499109497664129484309464691884002235704604638015895761999120156204int);
    lemma_fundamental_div_mod_converse(10352529277499109497664129484309464691884002235704604638015895761999120156204int * 3, m, 1int, 9169344960658053270745982707671118986955695549815990251358649391352134260029int);
    assert(mod_pow(3, 9984362344751627656609760207nat, 21888242871839275222246405745257275088696311157297823662689037894645226208583nat) == 9169344960658053270745982707671118986955695549815990251358649391352134260029nat);
    lemma_fundamental_div_mod_converse(9169344960658053270745982707671118986955695549815990251358649391352134260029int * 9169344960658053270745982707671118986955695549815990251358649391352134260029int, m, 3841189423008272383711508717829023789232987650988012828433436479416291684281int, 8572458008142934622090548389833931144985138991818804053240973179910498697018int);
    assert(mod_pow(3, 19968724689503255313219520414nat, 21888242871839275222246405745257275088696311157297823662689037894645226208583nat) == 8572458008142934622090548389833931144985138991818804053240973179910498697018nat);
    lemma_fundamental_div_mod_converse(8572458008142934622090548389833931144985138991818804053240973179910498697018int * 8572458008142934622090548389833931144985138991818804053240973179910498697018int, m, 3357374857893231781726182573452039082462386603118424644438153345295303677770int, 7045886003226052297708541254797501021532367071812611552636188812322721792414int);
    assert(mod_pow(3, 39937449379006510626439040828nat, 21888242871839275222246405745257275088696311157297823662689037894645226208583nat) == 7045886003226052297708541254797501021532367071812611552636188812322721792414nat);
    lemma_fundamental_div_mod_converse(7045886003226052297708541254797501021532367071812611552636188812322721792414int * 7045886003226052297708541254797501021532367071812611552636188812322721792414int, m, 2268090219079570698678921536908661074205696515231543052819976324157008772624int, 18728330742455064030260812421990661916868101444341755408878321812451063715604int);
    assert(mod_pow(3, 79874898758013021252878081656nat, 21888242871839275222246405745257275088696311157297823662689037894645226208583nat) == 18728330742455064030260812421990661916868101444341755408878321812451063715604nat);
    lemma_fundamental_div_mod_converse(18728330742455064030260812421990661916868101444341755408878321812451063715604int * 18728330742455064030260812421990661916868101444341755408878321812451063715604int, m, 16024601629857271278307285066559790641124235498821978011776420450287854419649int, 13059380285441187739735722733508136152319128288086387550897267060502105437449int);
    assert(mod_pow(3, 159749797516026042505756163312nat, 21888242871839275222246405745257275088696311157297823662689037894645226208583nat) == 13059380285441187739735722733508136152319128288086387550897267060502105437449nat);
    lemma_fundamental_div_mod_converse(13059380285441187739735722733508136152319128288086387550897267060502105437449int * 13059380285441187739735722733508136152319128288086387550897267060502105437449int, m, 7791736158921687390358594890878715768863729495879891878400357153318805480485int, 6711097341899161536140758680549794086898298824310067563847935958033505624846int);
    assert(mod_pow(3, 319499595032052085011512326624nat, 21888242871839275222246405745257275088696311157297823662689037894645226208583nat) == 6711097341899161536140758680549794086898298824310067563847935958033505624846nat);
    lemma_fundamental_div_mod_converse(6711097341899161536140758680549794086898298824310067563847935958033505624846int * 6711097341899161536140758680549794086898298824310067563847935958033505624846int, m, 2057672139155195973453716672421249205201118031298017184207952361039555096002int, 8825089566526862033844950745978004364828643328603455679864652957813851138550int);
    assert(mod_pow(3, 638999190064104170023024653248nat, 21888242871839275222246405745257275088696311157297823662689037894645226208583nat) == 8825089566526862033844950745978004364828643328603455679864652957813851138550nat);
    lemma_fundamental_div_mod_converse(8825089566526862033844950745978004364828643328603455679864652957813851138550int * 8825089566526862033844950745978004364828643328603455679864652957813851138550int, m, 3558175332448548160052000963462019139000193054776656196974000732719662125243int, 4957199140646751264321082123837990716888131944256174339729554889806308541831int);
    assert(mod_pow(3, 1277998380128208340046049306496nat, 21888242871839275222246405745257275088696311157297823662689037894645226208583nat) == 4957199140646751264321082123837990716888131944256174339729554889806308541831nat);
    lemma_fundamental_div_mod_converse(4957199140646751264321082123837990716888131944256174339729554889806308541831int * 4957199140646751264321082123837990716888131944256174339729554889806308541831int, m, 1122695113715354343479892456214995564754059361168392457320620559648338511712int, 18863330402480450249989696049890901601606319630666623958879715932354776408465int);
    lemma_fundamental_div_mod_converse(18863330402480450249989696049890901601606319630666623958879715932354776408465int * 3, m, 2int, 12813505463762800305476276659158154627426336577404224551261072007773876808229int);
    assert(mod_pow(3, 2555996760256416680092098612993nat, 21888242871839275222246405745257275088696311157297823662689037894645226208583nat) == 12813505463762800305476276659158154627426336577404224551261072007773876808229nat);
    lemma_fundamental_div_mod_converse(12813505463762800305476276659158154627426336577404224551261072007773876808229int * 12813505463762800305476276659158154627426336577404224551261072007773876808229int, m, 7501101081124953123032469865719724732851623454626300802986407346050600005964int, 9766177892213124485130377071785061977722604184781431656613704984275534127429int);
    assert(mod_pow(3, 5111993520512833360184197225986nat, 21888242871839275222246405745257275088696311157297823662689037894645226208583nat) == 9766177892213124485130377071785061977722604184781431656613704984275534127429nat);
    lemma_fundamental_div_mod_converse(9766177892213124485130377071785061977722604184781431656613704984275534127429int * 9766177892213124485130377071785061977722604184781431656613704984275534127429int, m, 4357509699650812002920161706163694377293716162621691252165399508540243223620int, 16968554368124309296389601792527720692453155967054560250647347317069977819581int);
    assert(mod_pow(3, 10223987041025666720368394451972nat, 21888242871839275222246405745257275088696311157297823662689037894645226208583nat) == 16968554368124309296389601792527720692453155967054560250647347317069977819581nat);
    lemma_fundamental_div_mod_converse(16968554368124309296389601792527720692453155967054560250647347317069977819581int * 16968554368124309296389601792527720692453155967054560250647347317069977819581int, m, 13154634615025887823921199899630421250551642527788035063028159021394895389073int, 16258389297094460416779048515018346208506322903487116111231259403830550002002int);
    assert(mod_pow(3, 20447974082051333440736788903944nat, 21888242871839275222246405745257275088696311157297823662689037894645226208583nat) == 16258389297094460416779048515018346208506322903487116111231259403830550002002nat);
    lemma_fundamental_div_mod_converse(16258389297094460416779048515018346208506322903487116111231259403830550002002int * 16258389297094460416779048515018346208506322903487116111231259403830550002002int, m, 12076584862641536440521852388184428269590321786319019126000865654710658408719int, 7484304513706527207431788992649049820546536534024853543044818714133844172827int);
    assert(mod_pow(3, 40895948164102666881473577807888nat, 21888242871839275222246405745257275088696311157297823662689037894645226208583nat) == 7484304513706527207431788992649049820546536534024853543044818714133844172827nat);
    lemma_fundamental_div_mod_converse(7484304513706527207431788992649049820546536534024853543044818714133844172827int * 7484304513706527207431788992649049820546536534024853543044818714133844172827int, m, 2559127947449577805213512842794264300636284524930849915328475998199789496851int, 8770351617739941299008740765723147536886814845289617655414849359867897499796int);
    assert(mod_pow(3, 81791896328205333762947155615776nat, 21888242871839275222246405745257275088696311157297823662689037894645226208583nat) == 8770351617739941299008740765723147536886814845289617655414849359867897499796nat);
    lemma_fundamental_div_mod_converse(8770351617739941299008740765723147536886814845289617655414849359867897499796int * 8770351617739941299008740765723147536886814845289617655414849359867897499796int, m, 3514172788979569399696524120460100423722990796537878493202223048123001728911int, 7736774471849829487730420457356426210132752489618949072696218067749312598503int);
    assert(mod_pow(3, 163583792656410667525894311231552nat, 21888242871839275222246405745257275088696311157297823662689037894645226208583nat) == 7736774471849829487730420457356426210132752489618949072696218067749312598503nat);
    lemma_fundamental_div_mod_converse(7736774471849829487730420457356426210132752489618949072696218067749312598503int * 7736774471849829487730420457356426210132752489618949072696218067749312598503int, m, 2734695497429728142616426992631979625090197586722129924765233784503144210405int, 7276273150091617748223889110414859866048155525056548438142591285212708934894int);
    assert(mod_pow(3, 327167585312821335051788622463104nat, 21888242871839275222246405745257275088696311157297823662689037894645226208583nat) == 7276273150091617748223889110414859866048155525056548438142591285212708934894nat);
    lemma_fundamental_div_mod_converse(7276273150091617748223889110414859866048155525056548438142591285212708934894int * 7276273150091617748223889110414859866048155525056548438142591285212708934894int, m, 2418839706080768743085412692922292711061760152993558442221323878026091102567int, 5272024585244876592039267663005545176490787518182191811713906604684342058675int);
    assert(mod_pow(3, 654335170625642670103577244926208nat, 21888242871839275222246405745257275088696311157297823662689037894645226208583nat) == 5272024585244876592039267663005545176490787518182191811713906604684342058675nat);
    lemma_fundamental_div_mod_converse(5272024585244876592039267663005545176490787518182191811713906604684342058675int * 5272024585244876592039267663005545176490787518182191811713906604684342058675int, m, 1269825238607234759459273874439339079346014852786152887007273531404396661508int, 1435168262707636645990554466684429391264304024860424990228607278107487432461int);
    lemma_fundamental_div_mod_converse(1435168262707636645990554466684429391264304024860424990228607278107487432461int * 3, m, 0int, 4305504788122909937971663400053288173792912074581274970685821834322462297383int);
    assert(mod_pow(3, 1308670341251285340207154489852417nat, 21888242871839275222246405745257275088696311157297823662689037894645226208583nat) == 4305504788122909937971663400053288173792912074581274970685821834322462297383nat);
    lemma_fundamental_div_mod_converse(4305504788122909937971663400053288173792912074581274970685821834322462297383int * 4305504788122909937971663400053288173792912074581274970685821834322462297383int, m, 846909986749046112113709110847547655522840440068020427202833237606876673391int, 559345917178387874251867275680373114767643209486204888346567302983796733736int);
    lemma_fundamental_div_mod_converse(559345917178387874251867275680373114767643209486204888346567302983796733736int * 3, m, 0int, 1678037751535163622755601827041119344302929628458614665039701908951390201208int);
    assert(mod_pow(3, 2617340682502570680414308979704835nat, 21888242871839275222246405745257275088696311157297823662689037894645226208583nat) == 1678037751535163622755601827041119344302929628458614665039701908951390201208nat);
    lemma_fundamental_div_mod_converse(1678037751535163622755601827041119344302929628458614665039701908951390201208int * 1678037751535163622755601827041119344302929628458614665039701908951390201208int, m, 128644894524627236933176260088420848054595968759739566292779037663350926198int, 21106867363283735736686388816094059369051443795098804377543700028841737501830int);
    lemma_fundamental_div_mod_converse(21106867363283735736686388816094059369051443795098804377543700028841737501830int * 3, m, 2int, 19544116346172656765566354957767627929761709070700765807253024297234760088324int);
    assert(mod_pow(3, 5234681365005141360828617959409671nat, 21888242871839275222246405745257275088696311157297823662689037894645226208583nat) == 19544116346172656765566354957767627929761709070700765807253024297234760088324nat);
    lemma_fundamental_div_mod_converse(19544116346172656765566354957767627929761709070700765807253024297234760088324int * 19544116346172656765566354957767627929761709070700765807253024297234760088324int, m, 17451034602881121265477428192123371329222357910116713087647880913199446389559int, 14914413138266132812911178489322258052011303409721638371180852750170673744079int);
    assert(mod_pow(3, 10469362730010282721657235918819342nat, 21888242871839275222246405745257275088696311157297823662689037894645226208583nat) == 14914413138266132812911178489322258052011303409721638371180852750170673744079nat);
    lemma_fundamental_div_mod_converse(14914413138266132812911178489322258052011303409721638371180852750170673744079int * 14914413138266132812911178489322258052011303409721638371180852750170673744079int, m, 10162520608041561087484509391868020837192324369556896457391272965589775118848int, 18016925373839899230399530519782591178884483285792082845953412860060724885857int);
    assert(mod_pow(3, 20938725460020565443314471837638684nat, 21888242871839275222246405745257275088696311157297823662689037894645226208583nat) == 18016925373839899230399530519782591178884483285792082845953412860060724885857nat);
    lemma_fundamental_div_mod_converse(18016925373839899230399530519782591178884483285792082845953412860060724885857int * 18016925373839899230399530519782591178884483285792082845953412860060724885857int, m, 14830317893819996543169833591696457076198291575939135603864292893164720909650int, 11799326864578014708207337176897457786463517196012684435974328075533281098499int);
    lemma_fundamental_div_mod_converse(11799326864578014708207337176897457786463517196012684435974328075533281098499int * 3, m, 1int, 13509737721894768902375605785435098270694240430740229645233946331954617086914int);
    assert(mod_pow(3, 41877450920041130886628943675277369nat, 21888242871839275222246405745257275088696311157297823662689037894645226208583nat) == 13509737721894768902375605785435098270694240430740229645233946331954617086914nat);
    lemma_fundamental_div_mod_converse(13509737721894768902375605785435098270694240430740229645233946331954617086914int * 13509737721894768902375605785435098270694240430740229645233946331954617086914int, m, 8338404063909669156461429458488739058770748248408941440884794197977554465787int, 16999713193382079339959504434201218307248287809012597330707320624045430793575int);
    assert(mod_pow(3, 83754901840082261773257887350554738nat, 21888242871839275222246405745257275088696311157297823662689037894645226208583nat) == 16999713193382079339959504434201218307248287809012597330707320624045430793575nat);
    lemma_fundamental_div_mod_converse(16999713193382079339959504434201218307248287809012597330707320624045430793575int * 16999713193382079339959504434201218307248287809012597330707320624045430793575int, m, 13202989858498623354109535574687133129307406026725427514957811314046715028286int, 10249640206493301768848478498468078479518104334962600620033400274030880301887int);
    lemma_fundamental_div_mod_converse(10249640206493301768848478498468078479518104334962600620033400274030880301887int * 3, m, 1int, 8860677747640630084299029750146960349858001847589978197411162927447414697078int);
    assert(mod_pow(3, 167509803680164523546515774701109477nat, 21888242871839275222246405745257275088696311157297823662689037894645226208583nat) == 8860677747640630084299029750146960349858001847589978197411162927447414697078nat);
    lemma_fundamental_div_mod_converse(8860677747640630084299029750146960349858001847589978197411162927447414697078int * 8860677747640630084299029750146960349858001847589978197411162927447414697078int, m, 3586930691843902987905810473072859865569951387337787789328103466595543628658int, 14947305911952871693865567106332305809785439080295432765989593278635097366470int);
    lemma_fundamental_div_mod_converse(14947305911952871693865567106332305809785439080295432765989593278635097366470int * 3, m, 2int, 1065431992180064637103889828482367251963694926290650972590704046614839682244int);
    assert(mod_pow(3, 335019607360329047093031549402218955nat, 21888242871839275222246405745257275088696311157297823662689037894645226208583nat) == 1065431992180064637103889828482367251963694926290650972590704046614839682244nat);
    lemma_fundamental_div_mod_converse(1065431992180064637103889828482367251963694926290650972590704046614839682244int * 1065431992180064637103889828482367251963694926290650972590704046614839682244int, m, 51860961914911113729668317252483205766979066344263566197902629039700013416int, 10845284385558127438788784613939069855382087643210435589972213561802974526008int);
    assert(mod_pow(3, 670039214720658094186063098804437910nat, 21888242871839275222246405745257275088696311157297823662689037894645226208583nat) == 10845284385558127438788784613939069855382087643210435589972213561802974526008nat);
    lemma_fundamental_div_mod_converse(10845284385558127438788784613939069855382087643210435589972213561802974526008int * 10845284385558127438788784613939069855382087643210435589972213561802974526008int, m, 5373669969413459445569091833920023265858190092530530352590054877169015725095int, 9093270093867040527652084159370226966443994123376008083804143678818810925679int);
    assert(mod_pow(3, 1340078429441316188372126197608875820nat, 21888242871839275222246405745257275088696311157297823662689037894645226208583nat) == 9093270093867040527652084159370226966443994123376008083804143678818810925679nat);
    lemma_fundamental_div_mod_converse(9093270093867040527652084159370226966443994123376008083804143678818810925679int * 9093270093867040527652084159370226966443994123376008083804143678818810925679int, m, 3777715803144706104742444936643874749295494915319806919433200271890272541361int, 3430900669533214873507409481212756203037680530110440375346110540390780909578int);
    lemma_fundamental_div_mod_converse(3430900669533214873507409481212756203037680530110440375346110540390780909578int * 3, m, 0int, 10292702008599644620522228443638268609113041590331321126038331621172342728734int);
    assert(mod_pow(3, 2680156858882632376744252395217751641nat, 21888242871839275222246405745257275088696311157297823662689037894645226208583nat) == 10292702008599644620522228443638268609113041590331321126038331621172342728734nat);
    lemma_fundamental_div_mod_converse(10292702008599644620522228443638268609113041590331321126038331621172342728734int * 10292702008599644620522228443638268609113041590331321126038331621172342728734int, m, 4840028286333110061191788564120255904560377173198190409965554088737875032020int, 11811521193767062954395381695448630792946801405639790674180999273156785415096int);
    assert(mod_pow(3, 5360313717765264753488504790435503282nat, 21888242871839275222246405745257275088696311157297823662689037894645226208583nat) == 11811521193767062954395381695448630792946801405639790674180999273156785415096nat);
    lemma_fundamental_div_mod_converse(11811521193767062954395381695448630792946801405639790674180999273156785415096int * 11811521193767062954395381695448630792946801405639790674180999273156785415096int, m, 6373834287552624751106883037646581786634618212590229178959849581587173952933int, 16537972355267537805766537671313525740884045879113891033259496548172542065277int);
    assert(mod_pow(3, 10720627435530529506977009580871006564nat, 21888242871839275222246405745257275088696311157297823662689037894645226208583nat) == 16537972355267537805766537671313525740884045879113891033259496548172542065277nat);
    lemma_fundamental_div_mod_converse(16537972355267537805766537671313525740884045879113891033259496548172542065277int * 16537972355267537805766537671313525740884045879113891033259496548172542065277int, m, 12495499580529400847624193606819632844123045863508968717097584385698172371884int, 9526867187831092559209264563493549481363333932467335768246030682938900406357int);
    lemma_fundamental_div_mod_converse(9526867187831092559209264563493549481363333932467335768246030682938900406357int * 3, m, 1int, 6692358691654002455381387945223373355393690640104183642049054154171475010488int);
    assert(mod_pow(3, 21441254871061059013954019161742013129nat, 21888242871839275222246405745257275088696311157297823662689037894645226208583nat) == 6692358691654002455381387945223373355393690640104183642049054154171475010488nat);
    lemma_fundamental_div_mod_converse(6692358691654002455381387945223373355393690640104183642049054154171475010488int * 6692358691654002455381387945223373355393690640104183642049054154171475010488int, m, 2046197363580028267622333628114922416159536383902295196571368416088703581320int, 20795439664869098675794589492064388416266890114224942976684883455022287528584int);
    lemma_fundamental_div_mod_converse(20795439664869098675794589492064388416266890114224942976684883455022287528584int * 3, m, 2int, 18609833250928745582890956985678615071408048028079181604676574575776410168586int);
    assert(mod_pow(3, 42882509742122118027908038323484026259nat, 21888242871839275222246405745257275088696311157297823662689037894645226208583nat) == 18609833250928745582890956985678615071408048028079181604676574575776410168586nat);
    lemma_fundamental_div_mod_converse(18609833250928745582890956985678615071408048028079181604676574575776410168586int * 18609833250928745582890956985678615071408048028079181604676574575776410168586int, m, 15822462116086310624639103747103547064235699821751734777180904046901195277432int, 17003770558437566585973217673661215936078494621927129845444904707386756640540int);
    lemma_fundamental_div_mod_converse(17003770558437566585973217673661215936078494621927129845444904707386756640540int * 3, m, 2int, 7234825931634149313426841530469097630842861551185742210956638332869817504454int);
    assert(mod_pow(3, 85765019484244236055816076646968052519nat, 21888242871839275222246405745257275088696311157297823662689037894645226208583nat) == 7234825931634149313426841530469097630842861551185742210956638332869817504454nat);
    lemma_fundamental_div_mod_converse(7234825931634149313426841530469097630842861551185742210956638332869817504454int * 7234825931634149313426841530469097630842861551185742210956638332869817504454int, m, 2391361726362622555480064598819664580988859042066940352346984811730543679559int, 1689562148409981343674661057915623659774472554813991426007782385456662383219int);
    assert(mod_pow(3, 171530038968488472111632153293936105038nat, 21888242871839275222246405745257275088696311157297823662689037894645226208583nat) == 1689562148409981343674661057915623659774472554813991426007782385456662383219nat);
    lemma_fundamental_div_mod_converse(1689562148409981343674661057915623659774472554813991426007782385456662383219int * 1689562148409981343674661057915623659774472554813991426007782385456662383219int, m, 130417972335843205052709843004869628470124764727410331037145437839072797040int, 21321578595014520173166027912142421048158467178800158297804647787004547807641int);
    lemma_fundamental_div_mod_converse(21321578595014520173166027912142421048158467178800158297804647787004547807641int * 3, m, 2int, 20188250041365010075005272245912712967082779221804827568035867571723191005757int);
    assert(mod_pow(3, 343060077936976944223264306587872210077nat, 21888242871839275222246405745257275088696311157297823662689037894645226208583nat) == 20188250041365010075005272245912712967082779221804827568035867571723191005757nat);
    lemma_fundamental_div_mod_converse(20188250041365010075005272245912712967082779221804827568035867571723191005757int * 20188250041365010075005272245912712967082779221804827568035867571723191005757int, m, 18620290450862787422424610247803401363406213008688807201975742292517206151971int, 8295812879500827074921157335013850076946416022886539308203197499769964575956int);
    lemma_fundamental_div_mod_converse(8295812879500827074921157335013850076946416022886539308203197499769964575956int * 3, m, 1int, 2999195766663206002517066259784275142142936911361794261920554604664667519285int);
    assert(mod_pow(3, 686120155873953888446528613175744420155nat, 21888242871839275222246405745257275088696311157297823662689037894645226208583nat) == 2999195766663206002517066259784275142142936911361794261920554604664667519285nat);
    lemma_fundamental_div_mod_converse(2999195766663206002517066259784275142142936911361794261920554604664667519285int * 2999195766663206002517066259784275142142936911361794261920554604664667519285int, m, 410959221324403593515779134502332644535591735027512161423518963797047374503int, 2624502641834888744191136465474904422963231513192683757367855849870652951976int);
    lemma_fundamental_div_mod_converse(2624502641834888744191136465474904422963231513192683757367855849870652951976int * 3, m, 0int, 7873507925504666232573409396424713268889694539578051272103567549611958855928int);
    assert(mod_pow(3, 1372240311747907776893057226351488840311nat, 21888242871839275222246405745257275088696311157297823662689037894645226208583nat) == 7873507925504666232573409396424713268889694539578051272103567549611958855928nat);
    lemma_fundamental_div_mod_converse(7873507925504666232573409396424713268889694539578051272103567549611958855928int * 7873507925504666232573409396424713268889694539578051272103567549611958855928int, m, 2832211220241068938165994316707188985348759794185715330489894210811181025047int, 16017164721748217108652716671428724177401159305043110897502409579159291362783int);
    assert(mod_pow(3, 2744480623495815553786114452702977680622nat, 21888242871839275222246405745257275088696311157297823662689037894645226208583nat) == 16017164721748217108652716671428724177401159305043110897502409579159291362783nat);
    lemma_fundamental_div_mod_converse(16017164721748217108652716671428724177401159305043110897502409579159291362783int * 16017164721748217108652716671428724177401159305043110897502409579159291362783int, m, 11720884459559987915329633922181370967523699720141619035246219447567769507748int, 3875462064120914105945882365479380821474507974384871645009051824987034904005int);
    lemma_fundamental_div_mod_converse(3875462064120914105945882365479380821474507974384871645009051824987034904005int * 3, m, 0int, 11626386192362742317837647096438142464423523923154614935027155474961104712015int);
    assert(mod_pow(3, 5488961246991631107572228905405955361245nat, 21888242871839275222246405745257275088696311157297823662689037894645226208583nat) == 11626386192362742317837647096438142464423523923154614935027155474961104712015nat);
    lemma_fundamental_div_mod_converse(11626386192362742317837647096438142464423523923154614935027155474961104712015int * 11626386192362742317837647096438142464423523923154614935027155474961104712015int, m, 6175591923272752510703220866527752354571563140097224781244670571945548016126int, 4313990957411201175439427575572651343131944901722451079926756662279761750767int);
    assert(mod_pow(3, 10977922493983262215144457810811910722490nat, 21888242871839275222246405745257275088696311157297823662689037894645226208583nat) == 4313990957411201175439427575572651343131944901722451079926756662279761750767nat);
    lemma_fundamental_div_mod_converse(4313990957411201175439427575572651343131944901722451079926756662279761750767int * 4313990957411201175439427575572651343131944901722451079926756662279761750767int, m, 850251803655254537969341478716440593585048990725455550485511229743188931615int, 4733089866367014599681426898234586422941716135717339800691082776420112036744int);
    assert(mod_pow(3, 21955844987966524430288915621623821444980nat, 21888242871839275222246405745257275088696311157297823662689037894645226208583nat) == 4733089866367014599681426898234586422941716135717339800691082776420112036744nat);
    lemma_fundamental_div_mod_converse(4733089866367014599681426898234586422941716135717339800691082776420112036744int * 4733089866367014599681426898234586422941716135717339800691082776420112036744int, m, 1023478212219949933548133836053095530882412486509637777142747519459088805072int, 10018269332962042096652647611961857593621319945553119918605883060685505788560int);
    lemma_fundamental_div_mod_converse(10018269332962042096652647611961857593621319945553119918605883060685505788560int * 3, m, 1int, 8166565127046851067711537090628297692167648679361536093128611287411291157097int);
    assert(mod_pow(3, 43911689975933048860577831243247642889961nat, 21888242871839275222246405745257275088696311157297823662689037894645226208583nat) == 8166565127046851067711537090628297692167648679361536093128611287411291157097nat);
    lemma_fundamental_div_mod_converse(8166565127046851067711537090628297692167648679361536093128611287411291157097int * 8166565127046851067711537090628297692167648679361536093128611287411291157097int, m, 3046968473659554980253457610966078953623628426219356834659045319942108811735int, 7207437053386572410102339904759928331397434896509992883745167848779745345904int);
    assert(mod_pow(3, 87823379951866097721155662486495285779922nat, 21888242871839275222246405745257275088696311157297823662689037894645226208583nat) == 7207437053386572410102339904759928331397434896509992883745167848779745345904nat);
    lemma_fundamental_div_mod_converse(7207437053386572410102339904759928331397434896509992883745167848779745345904int * 7207437053386572410102339904759928331397434896509992883745167848779745345904int, m, 2373290043549511467081183792524637245220066747376687841600209367870170722317int, 20678903690734089636706746876111181753593990742875310992967560303420194530405int);
    lemma_fundamental_div_mod_converse(20678903690734089636706746876111181753593990742875310992967560303420194530405int * 3, m, 2int, 18260225328523718465627429137818995083389349914030285653524605120970131174049int);
    assert(mod_pow(3, 175646759903732195442311324972990571559845nat, 21888242871839275222246405745257275088696311157297823662689037894645226208583nat) == 18260225328523718465627429137818995083389349914030285653524605120970131174049nat);
    lemma_fundamental_div_mod_converse(18260225328523718465627429137818995083389349914030285653524605120970131174049int * 18260225328523718465627429137818995083389349914030285653524605120970131174049int, m, 15233558536461928211558728674191397631395855209519444238170670937924858279092int, 142093810526857747517443499102827110104714922453790166010791207561911207765int);
    assert(mod_pow(3, 351293519807464390884622649945981143119690nat, 21888242871839275222246405745257275088696311157297823662689037894645226208583nat) == 142093810526857747517443499102827110104714922453790166010791207561911207765nat);
    lemma_fundamental_div_mod_converse(142093810526857747517443499102827110104714922453790166010791207561911207765int * 142093810526857747517443499102827110104714922453790166010791207561911207765int, m, 922442751949687386008085500568865792083718443371491662555668918687807108int, 9111861179498947501948023550641783935177811492155844779215550474195718287261int);
    lemma_fundamental_div_mod_converse(9111861179498947501948023550641783935177811492155844779215550474195718287261int * 3, m, 1int, 5447340666657567283597664906668076716837123319169710674957613527941928653200int);
    assert(mod_pow(3, 702587039614928781769245299891962286239381nat, 21888242871839275222246405745257275088696311157297823662689037894645226208583nat) == 5447340666657567283597664906668076716837123319169710674957613527941928653200nat);
    lemma_fundamental_div_mod_converse(5447340666657567283597664906668076716837123319169710674957613527941928653200int * 5447340666657567283597664906668076716837123319169710674957613527941928653200int, m, 1355683072065977824281514970727235891568610153687757131224942278911615396036int, 9070182715371166856627837618151883763689316913323285433870554590967582863012int);
    lemma_fundamental_div_mod_converse(9070182715371166856627837618151883763689316913323285433870554590967582863012int * 3, m, 1int, 5322305274274225347637107109198376202371639582672032638922625878257522380453int);
    assert(mod_pow(3, 1405174079229857563538490599783924572478763nat, 21888242871839275222246405745257275088696311157297823662689037894645226208583nat) == 5322305274274225347637107109198376202371639582672032638922625878257522380453nat);
    lemma_fundamental_div_mod_converse(5322305274274225347637107109198376202371639582672032638922625878257522380453int * 5322305274274225347637107109198376202371639582672032638922625878257522380453int, m, 1294162057613668871809346392789907196733349365226814715027778502657459543835int, 21853936982224014240129647715257546376813060432637290795461606980813934749404int);
    assert(mod_pow(3, 2810348158459715127076981199567849144957526nat, 21888242871839275222246405745257275088696311157297823662689037894645226208583nat) == 21853936982224014240129647715257546376813060432637290795461606980813934749404nat);
    lemma_fundamental_div_mod_converse(21853936982224014240129647715257546376813060432637290795461606980813934749404int * 21853936982224014240129647715257546376813060432637290795461606980813934749404int, m, 21819684860929453346103405174754855606030905490055428139697383613701202833364int, 11292168134603468312204360947617062531524261467977889632062164713241422792004int);
    assert(mod_pow(3, 5620696316919430254153962399135698289915052nat, 21888242871839275222246405745257275088696311157297823662689037894645226208583nat) == 11292168134603468312204360947617062531524261467977889632062164713241422792004nat);
    lemma_fundamental_div_mod_converse(11292168134603468312204360947617062531524261467977889632062164713241422792004int * 11292168134603468312204360947617062531524261467977889632062164713241422792004int, m, 5825641735006891156146383416148489558987554805585056087593466731135262487018int, 11199163271378893176244921261446175251527585624026734587822560275875248660522int);
    lemma_fundamental_div_mod_converse(11199163271378893176244921261446175251527585624026734587822560275875248660522int * 3, m, 1int, 11709246942297404306488358039081250665886445714782380100778642932980519772983int);
    assert(mod_pow(3, 11241392633838860508307924798271396579830105nat, 21888242871839275222246405745257275088696311157297823662689037894645226208583nat) == 11709246942297404306488358039081250665886445714782380100778642932980519772983nat);
    lemma_fundamental_div_mod_converse(11709246942297404306488358039081250665886445714782380100778642932980519772983int * 11709246942297404306488358039081250665886445714782380100778642932980519772983int, m, 6263931954633872237304252164825987636698219495033688456431661272186907245387int, 479543507807995281013858490456149473041637336409209578261791670887430161668int);
    assert(mod_pow(3, 22482785267677721016615849596542793159660210nat, 21888242871839275222246405745257275088696311157297823662689037894645226208583nat) == 479543507807995281013858490456149473041637336409209578261791670887430161668nat);
    lemma_fundamental_div_mod_converse(479543507807995281013858490456149473041637336409209578261791670887430161668int * 479543507807995281013858490456149473041637336409209578261791670887430161668int, m, 10506187144727760476962732263248253361364232799045224150292044389500028067int, 3188695250495329843269696133033391042744526064342001078552092055450120243163int);
    assert(mod_pow(3, 44965570535355442033231699193085586319320420nat, 21888242871839275222246405745257275088696311157297823662689037894645226208583nat) == 3188695250495329843269696133033391042744526064342001078552092055450120243163nat);
    lemma_fundamental_div_mod_converse(3188695250495329843269696133033391042744526064342001078552092055450120243163int * 3188695250495329843269696133033391042744526064342001078552092055450120243163int, m, 464531459197806001602700094419120565971825221007641975053724150101115427593int, 10952284209068859165321477427040754942003113630819036770852060668037996613850int);
    assert(mod_pow(3, 89931141070710884066463398386171172638640840nat, 21888242871839275222246405745257275088696311157297823662689037894645226208583nat) == 10952284209068859165321477427040754942003113630819036770852060668037996613850nat);
    lemma_fundamental_div_mod_converse(10952284209068859165321477427040754942003113630819036770852060668037996613850int * 10952284209068859165321477427040754942003113630819036770852060668037996613850int, m, 5480226535248575716320870786312190257359765188935275203459271002530611111248int, 13417077414719678948673624020675192099256550116190537531720608843506546380916int);
    lemma_fundamental_div_mod_converse(13417077414719678948673624020675192099256550116190537531720608843506546380916int * 3, m, 1int, 18362989372319761623774466316768301209073339191273788932472788635874412934165int);
    assert(mod_pow(3, 179862282141421768132926796772342345277281681nat, 21888242871839275222246405745257275088696311157297823662689037894645226208583nat) == 18362989372319761623774466316768301209073339191273788932472788635874412934165nat);
    lemma_fundamental_div_mod_converse(18362989372319761623774466316768301209073339191273788932472788635874412934165int * 18362989372319761623774466316768301209073339191273788932472788635874412934165int, m, 15405502427139029368852052632662223953803208349564846646560949946101864370910int, 9582628088273745252639390225969925269875293984503366893422997095092886726695int);
    lemma_fundamental_div_mod_converse(9582628088273745252639390225969925269875293984503366893422997095092886726695int * 3, m, 1int, 6859641392981960535671764932652500720929570796212277017579953390633433971502int);
    assert(mod_pow(3, 359724564282843536265853593544684690554563363nat, 21888242871839275222246405745257275088696311157297823662689037894645226208583nat) == 6859641392981960535671764932652500720929570796212277017579953390633433971502nat);
    lemma_fundamental_div_mod_converse(6859641392981960535671764932652500720929570796212277017579953390633433971502int * 6859641392981960535671764932652500720929570796212277017579953390633433971502int, m, 2149769641895310068838693240006357352245299246107895091377815431637293163686int, 15318588991448705258934364278978661727767831398016021645456166494813551019066int);
    lemma_fundamental_div_mod_converse(15318588991448705258934364278978661727767831398016021645456166494813551019066int * 3, m, 2int, 2179281230667565332310281346421435005910871879452417610990423695150200640032int);
    assert(mod_pow(3, 719449128565687072531707187089369381109126727nat, 21888242871839275222246405745257275088696311157297823662689037894645226208583nat) == 2179281230667565332310281346421435005910871879452417610990423695150200640032nat);
    lemma_fundamental_div_mod_converse(2179281230667565332310281346421435005910871879452417610990423695150200640032int * 2179281230667565332310281346421435005910871879452417610990423695150200640032int, m, 216977978092987775704953376792178504868589661406961788514445248648153536065int, 20039165725498805084043193885473583066857317573183484624609489397137737915129int);
    assert(mod_pow(3, 1438898257131374145063414374178738762218253454nat, 21888242871839275222246405745257275088696311157297823662689037894645226208583nat) == 20039165725498805084043193885473583066857317573183484624609489397137737915129nat);
    lemma_fundamental_div_mod_converse(20039165725498805084043193885473583066857317573183484624609489397137737915129int * 20039165725498805084043193885473583066857317573183484624609489397137737915129int, m, 18346295101223087128180097656425327238728800420485971904317571223288825989895int, 20416993896685113053121186736209053354870688636372921993563921150900886817856int);
    assert(mod_pow(3, 2877796514262748290126828748357477524436506908nat, 21888242871839275222246405745257275088696311157297823662689037894645226208583nat) == 20416993896685113053121186736209053354870688636372921993563921150900886817856nat);
    lemma_fundamental_div_mod_converse(20416993896685113053121186736209053354870688636372921993563921150900886817856int * 20416993896685113053121186736209053354870688636372921993563921150900886817856int, m, 19044636986991218813029799569020866074952749963843222962349921344989574486803int, 5858379895528383866560453109036471528051379844086281013232164722342061606587int);
    assert(mod_pow(3, 5755593028525496580253657496714955048873013816nat, 21888242871839275222246405745257275088696311157297823662689037894645226208583nat) == 5858379895528383866560453109036471528051379844086281013232164722342061606587nat);
    lemma_fundamental_div_mod_converse(5858379895528383866560453109036471528051379844086281013232164722342061606587int * 5858379895528383866560453109036471528051379844086281013232164722342061606587int, m, 1567993155105519299633113269515742056391140718366093451696653029535454504940int, 18844634036538043219086690627555959427318101190881881404602365970756117888549int);
    assert(mod_pow(3, 11511186057050993160507314993429910097746027632nat, 21888242871839275222246405745257275088696311157297823662689037894645226208583nat) == 18844634036538043219086690627555959427318101190881881404602365970756117888549nat);
    lemma_fundamental_div_mod_converse(18844634036538043219086690627555959427318101190881881404602365970756117888549int * 18844634036538043219086690627555959427318101190881881404602365970756117888549int, m, 16224245776618945710656694637713173576515796992113640417696724471990498449003int, 20254835036712825343053855776738680028507456805940820006339403311250318932652int);
    lemma_fundamental_div_mod_converse(20254835036712825343053855776738680028507456805940820006339403311250318932652int * 3, m, 2int, 16988019366459925584668755839701489908129748103226812693640134144460504380790int);
    assert(mod_pow(3, 23022372114101986321014629986859820195492055265nat, 21888242871839275222246405745257275088696311157297823662689037894645226208583nat) == 16988019366459925584668755839701489908129748103226812693640134144460504380790nat);
    lemma_fundamental_div_mod_converse(16988019366459925584668755839701489908129748103226812693640134144460504380790int * 16988019366459925584668755839701489908129748103226812693640134144460504380790int, m, 13184831860875955132508122226067248519424386894347516723718084844450610557749int, 3930640287668660993197905930232465518577906897694888664260573864923080064433int);
    assert(mod_pow(3, 46044744228203972642029259973719640390984110530nat, 21888242871839275222246405745257275088696311157297823662689037894645226208583nat) == 3930640287668660993197905930232465518577906897694888664260573864923080064433nat);
    lemma_fundamental_div_mod_converse(3930640287668660993197905930232465518577906897694888664260573864923080064433int * 3930640287668660993197905930232465518577906897694888664260573864923080064433int, m, 705855338023563871947673123485541457322048155041492346081803423622130900303int, 16593010426913628998941142494554974735788909570959134703508740041798375710840int);
    lemma_fundamental_div_mod_converse(16593010426913628998941142494554974735788909570959134703508740041798375710840int * 3, m, 2int, 6002545537062336552330615993150374029974106398281756785148144336104674715354int);
    assert(mod_pow(3, 92089488456407945284058519947439280781968221061nat, 21888242871839275222246405745257275088696311157297823662689037894645226208583nat) == 6002545537062336552330615993150374029974106398281756785148144336104674715354nat);
    lemma_fundamental_div_mod_converse(6002545537062336552330615993150374029974106398281756785148144336104674715354int * 6002545537062336552330615993150374029974106398281756785148144336104674715354int, m, 1646114452195829314281845475254256189472351807113502939184936459777560728152int, 7554011676091009524101757896230984829369197928876520780172885868889211216700int);
    lemma_fundamental_div_mod_converse(7554011676091009524101757896230984829369197928876520780172885868889211216700int * 3, m, 1int, 773792156433753350058867943435679399411282629331738677829619712022407441517int);
    assert(mod_pow(3, 184178976912815890568117039894878561563936442123nat, 21888242871839275222246405745257275088696311157297823662689037894645226208583nat) == 773792156433753350058867943435679399411282629331738677829619712022407441517nat);
    lemma_fundamental_div_mod_converse(773792156433753350058867943435679399411282629331738677829619712022407441517int * 773792156433753350058867943435679399411282629331738677829619712022407441517int, m, 27355064765328269732913297945880748031309047238601868150938413418149431030int, 15419994506200894987296919819840909082337150792986249916947438039712222730799int);
    lemma_fundamental_div_mod_converse(15419994506200894987296919819840909082337150792986249916947438039712222730799int * 3, m, 2int, 2483497774924134517397947969008177069618830064363102425464238329846215775231int);
    assert(mod_pow(3, 368357953825631781136234079789757123127872884247nat, 21888242871839275222246405745257275088696311157297823662689037894645226208583nat) == 2483497774924134517397947969008177069618830064363102425464238329846215775231nat);
    lemma_fundamental_div_mod_converse(2483497774924134517397947969008177069618830064363102425464238329846215775231int * 2483497774924134517397947969008177069618830064363102425464238329846215775231int, m, 281784208726428865570785338955932100989405716764893394448419049732025014697int, 2267304352206748554632717279115315373588004649031242086313045741942150559010int);
    assert(mod_pow(3, 736715907651263562272468159579514246255745768494nat, 21888242871839275222246405745257275088696311157297823662689037894645226208583nat) == 2267304352206748554632717279115315373588004649031242086313045741942150559010nat);
    lemma_fundamental_div_mod_converse(2267304352206748554632717279115315373588004649031242086313045741942150559010int * 2267304352206748554632717279115315373588004649031242086313045741942150559010int, m, 234859831172171740035326771425926044384621034798462970814654208520062254337int, 17466731063406345127017902231612207199059811792009319014503718527865133805629int);
    assert(mod_pow(3, 1473431815302527124544936319159028492511491536988nat, 21888242871839275222246405745257275088696311157297823662689037894645226208583nat) == 17466731063406345127017902231612207199059811792009319014503718527865133805629nat);
    lemma_fundamental_div_mod_converse(17466731063406345127017902231612207199059811792009319014503718527865133805629int * 17466731063406345127017902231612207199059811792009319014503718527865133805629int, m, 13938382163781593269660431885043836068848835581079846138474987851013798289443int, 94829111275850043331271848152989592651005642084290567917782450878627196372int);
    lemma_fundamental_div_mod_converse(94829111275850043331271848152989592651005642084290567917782450878627196372int * 3, m, 0int, 284487333827550129993815544458968777953016926252871703753347352635881589116int);
    assert(mod_pow(3, 2946863630605054249089872638318056985022983073977nat, 21888242871839275222246405745257275088696311157297823662689037894645226208583nat) == 284487333827550129993815544458968777953016926252871703753347352635881589116nat);
    lemma_fundamental_div_mod_converse(284487333827550129993815544458968777953016926252871703753347352635881589116int * 284487333827550129993815544458968777953016926252871703753347352635881589116int, m, 3697557797681140316048955153161974890485178291502623307207258966913025888int, 5449125037497406389823026671912253906927794683662579136094516031459082864752int);
    lemma_fundamental_div_mod_converse(5449125037497406389823026671912253906927794683662579136094516031459082864752int * 3, m, 0int, 16347375112492219169469080015736761720783384050987737408283548094377248594256int);
    assert(mod_pow(3, 5893727261210108498179745276636113970045966147955nat, 21888242871839275222246405745257275088696311157297823662689037894645226208583nat) == 16347375112492219169469080015736761720783384050987737408283548094377248594256nat);
    lemma_fundamental_div_mod_converse(16347375112492219169469080015736761720783384050987737408283548094377248594256int * 16347375112492219169469080015736761720783384050987737408283548094377248594256int, m, 12209142352506892771500641578783001925924616358150415704569067001491357747977int, 16202235677705077907335898811286803520284391768576367894632791190047167906945int);
    assert(mod_pow(3, 11787454522420216996359490553272227940091932295910nat, 21888242871839275222246405745257275088696311157297823662689037894645226208583nat) == 16202235677705077907335898811286803520284391768576367894632791190047167906945nat);
    lemma_fundamental_div_mod_converse(16202235677705077907335898811286803520284391768576367894632791190047167906945int * 16202235677705077907335898811286803520284391768576367894632791190047167906945int, m, 11993308119476304528193593265875822361599106504514004804387518759105875275590int, 11742100565760992424642287415054937873383043560182293669420421936956230844055int);
    lemma_fundamental_div_mod_converse(11742100565760992424642287415054937873383043560182293669420421936956230844055int * 3, m, 1int, 13338058825443702051680456499907538531452819523249057345572227916223466323582int);
    assert(mod_pow(3, 23574909044840433992718981106544455880183864591821nat, 21888242871839275222246405745257275088696311157297823662689037894645226208583nat) == 13338058825443702051680456499907538531452819523249057345572227916223466323582nat);
    lemma_fundamental_div_mod_converse(13338058825443702051680456499907538531452819523249057345572227916223466323582int * 13338058825443702051680456499907538531452819523249057345572227916223466323582int, m, 8127825256356328120029050744639398253499179941170735656583332695546051418986int, 1924677246138139993550382331264236372717369318643837485450964566551166953886int);
    assert(mod_pow(3, 47149818089680867985437962213088911760367729183642nat, 21888242871839275222246405745257275088696311157297823662689037894645226208583nat) == 1924677246138139993550382331264236372717369318643837485450964566551166953886nat);
    lemma_fundamental_div_mod_converse(1924677246138139993550382331264236372717369318643837485450964566551166953886int * 1924677246138139993550382331264236372717369318643837485450964566551166953886int, m, 169240743694773065821923018096074145194195250538034358692579506884535602630int, 2601581502135053992374192331324286259729066388307034081680303548338067127706int);
    lemma_fundamental_div_mod_converse(2601581502135053992374192331324286259729066388307034081680303548338067127706int * 3, m, 0int, 7804744506405161977122576993972858779187199164921102245040910645014201383118int);
    assert(mod_pow(3, 94299636179361735970875924426177823520735458367285nat, 21888242871839275222246405745257275088696311157297823662689037894645226208583nat) == 7804744506405161977122576993972858779187199164921102245040910645014201383118nat);
    lemma_fundamental_div_mod_converse(7804744506405161977122576993972858779187199164921102245040910645014201383118int * 7804744506405161977122576993972858779187199164921102245040910645014201383118int, m, 2782956912847108397046043041785989771468016707431002240137731642778817030181int, 12755475799652756877132875313735900308009417396873171605365739838905703158401int);
    lemma_fundamental_div_mod_converse(12755475799652756877132875313735900308009417396873171605365739838905703158401int * 3, m, 1int, 16378184527118995409152220195950425835331941033321691153408181622071883266620int);
    assert(mod_pow(3, 188599272358723471941751848852355647041470916734571nat, 21888242871839275222246405745257275088696311157297823662689037894645226208583nat) == 16378184527118995409152220195950425835331941033321691153408181622071883266620nat);
    lemma_fundamental_div_mod_converse(16378184527118995409152220195950425835331941033321691153408181622071883266620int * 16378184527118995409152220195950425835331941033321691153408181622071883266620int, m, 12255206138519029246902536331289309203143392745776832538072402595984562714338int, 19889788061919005445027383742635636549398447402517825345322054958466973461346int);
    lemma_fundamental_div_mod_converse(19889788061919005445027383742635636549398447402517825345322054958466973461346int * 3, m, 2int, 15892878442078465890589339737392359470802719892957828710588089086110467966872int);
    assert(mod_pow(3, 377198544717446943883503697704711294082941833469143nat, 21888242871839275222246405745257275088696311157297823662689037894645226208583nat) == 15892878442078465890589339737392359470802719892957828710588089086110467966872nat);
    lemma_fundamental_div_mod_converse(15892878442078465890589339737392359470802719892957828710588089086110467966872int * 15892878442078465890589339737392359470802719892957828710588089086110467966872int, m, 11539692183315844904129670390768546858862878853258396072240603300380569325472int, 7633242051827874777967552053734540842644595312745151330929826843545002538208int);
    lemma_fundamental_div_mod_converse(7633242051827874777967552053734540842644595312745151330929826843545002538208int * 3, m, 1int, 1011483283644349111656250415946347439237474780937630330100442635989781406041int);
    assert(mod_pow(3, 754397089434893887767007395409422588165883666938287nat, 21888242871839275222246405745257275088696311157297823662689037894645226208583nat) == 1011483283644349111656250415946347439237474780937630330100442635989781406041nat);
    lemma_fundamental_div_mod_converse(1011483283644349111656250415946347439237474780937630330100442635989781406041int * 1011483283644349111656250415946347439237474780937630330100442635989781406041int, m, 46741917068557433693309855625208931128816100377545131254195358609019853545int, 17475016490666374270597239832369917826154278785624420104663984815884629316946int);
    assert(mod_pow(3, 1508794178869787775534014790818845176331767333876574nat, 21888242871839275222246405745257275088696311157297823662689037894645226208583nat) == 17475016490666374270597239832369917826154278785624420104663984815884629316946nat);
    lemma_fundamental_div_mod_converse(17475016490666374270597239832369917826154278785624420104663984815884629316946int * 17475016490666374270597239832369917826154278785624420104663984815884629316946int, m, 13951608776323892942168957119838109354995494554123618860005372535642533594389int, 6470706253262572893756063166677041046048015033940563859345618714524890326129int);
    lemma_fundamental_div_mod_converse(6470706253262572893756063166677041046048015033940563859345618714524890326129int * 3, m, 0int, 19412118759787718681268189500031123138144045101821691578036856143574670978387int);
    assert(mod_pow(3, 3017588357739575551068029581637690352663534667753149nat, 21888242871839275222246405745257275088696311157297823662689037894645226208583nat) == 19412118759787718681268189500031123138144045101821691578036856143574670978387nat);
    lemma_fundamental_div_mod_converse(19412118759787718681268189500031123138144045101821691578036856143574670978387int * 19412118759787718681268189500031123138144045101821691578036856143574670978387int, m, 17216108070005032627082951472300904339177501657330328731533270680695758724092int, 19146202559204031877159610689830324865927790272109581705730343759845081840133int);
    lemma_fundamental_div_mod_converse(19146202559204031877159610689830324865927790272109581705730343759845081840133int * 3, m, 2int, 13662121933933545186986020578976424420390748501733097791812955490244793103233int);
    assert(mod_pow(3, 6035176715479151102136059163275380705327069335506299nat, 21888242871839275222246405745257275088696311157297823662689037894645226208583nat) == 13662121933933545186986020578976424420390748501733097791812955490244793103233nat);
    lemma_fundamental_div_mod_converse(13662121933933545186986020578976424420390748501733097791812955490244793103233int * 13662121933933545186986020578976424420390748501733097791812955490244793103233int, m, 8527572397225667307431450672506322365095410008259201616886456468296779584597int, 5011546120390593473082619582503465869075958404806688632812712014082179056238int);
    assert(mod_pow(3, 12070353430958302204272118326550761410654138671012598nat, 21888242871839275222246405745257275088696311157297823662689037894645226208583nat) == 5011546120390593473082619582503465869075958404806688632812712014082179056238nat);
    lemma_fundamental_div_mod_converse(5011546120390593473082619582503465869075958404806688632812712014082179056238int * 5011546120390593473082619582503465869075958404806688632812712014082179056238int, m, 1147446812604356775301662589986340032541190843555235118226943864350798723480int, 18677648953605764022400620221107446601683518213938821091573817789411747083804int);
    lemma_fundamental_div_mod_converse(18677648953605764022400620221107446601683518213938821091573817789411747083804int * 3, m, 2int, 12256461117138741622709049172807789627657932327220815949343377578944788834246int);
    assert(mod_pow(3, 24140706861916604408544236653101522821308277342025197nat, 21888242871839275222246405745257275088696311157297823662689037894645226208583nat) == 12256461117138741622709049172807789627657932327220815949343377578944788834246nat);
    lemma_fundamental_div_mod_converse(12256461117138741622709049172807789627657932327220815949343377578944788834246int * 12256461117138741622709049172807789627657932327220815949343377578944788834246int, m, 6863083528244437412686553670124144987480623631767524000262394742119854565320int, 16858823169260697902136296853075971965726881826532323325809800263128544246956int);
    assert(mod_pow(3, 48281413723833208817088473306203045642616554684050394nat, 21888242871839275222246405745257275088696311157297823662689037894645226208583nat) == 16858823169260697902136296853075971965726881826532323325809800263128544246956nat);
    lemma_fundamental_div_mod_converse(16858823169260697902136296853075971965726881826532323325809800263128544246956int * 16858823169260697902136296853075971965726881826532323325809800263128544246956int, m, 12985049568235087949563763635654925244916256319693470002360571170375337041220int, 18123342301529542470061269716913176296646583494459427986701483444343326474676int);
    assert(mod_pow(3, 96562827447666417634176946612406091285233109368100788nat, 21888242871839275222246405745257275088696311157297823662689037894645226208583nat) == 18123342301529542470061269716913176296646583494459427986701483444343326474676nat);
    lemma_fundamental_div_mod_converse(18123342301529542470061269716913176296646583494459427986701483444343326474676int * 18123342301529542470061269716913176296646583494459427986701483444343326474676int, m, 15006025750974770783361463910178151594142018861743801491257069989490804718167int, 6134718061144384497415730989348408309062484192625402096394793158908797877615int);
    assert(mod_pow(3, 193125654895332835268353893224812182570466218736201576nat, 21888242871839275222246405745257275088696311157297823662689037894645226208583nat) == 6134718061144384497415730989348408309062484192625402096394793158908797877615nat);
    lemma_fundamental_div_mod_converse(6134718061144384497415730989348408309062484192625402096394793158908797877615int * 6134718061144384497415730989348408309062484192625402096394793158908797877615int, m, 1719405523325530246778734236173704235562712353151071795069903754981603556188int, 6358480137262229902126327493518241076081516759601300248375049152755469726621int);
    assert(mod_pow(3, 386251309790665670536707786449624365140932437472403152nat, 21888242871839275222246405745257275088696311157297823662689037894645226208583nat) == 6358480137262229902126327493518241076081516759601300248375049152755469726621nat);
    lemma_fundamental_div_mod_converse(6358480137262229902126327493518241076081516759601300248375049152755469726621int * 6358480137262229902126327493518241076081516759601300248375049152755469726621int, m, 1847122671869408905834440676019583964547279205060729659629079531325191381615int, 4341799304851133177372327208972547623197454960751932292416523018494534676096int);
    lemma_fundamental_div_mod_converse(4341799304851133177372327208972547623197454960751932292416523018494534676096int * 3, m, 0int, 13025397914553399532116981626917642869592364882255796877249569055483604028288int);
    assert(mod_pow(3, 772502619581331341073415572899248730281864874944806305nat, 21888242871839275222246405745257275088696311157297823662689037894645226208583nat) == 13025397914553399532116981626917642869592364882255796877249569055483604028288nat);
    lemma_fundamental_div_mod_converse(13025397914553399532116981626917642869592364882255796877249569055483604028288int * 13025397914553399532116981626917642869592364882255796877249569055483604028288int, m, 7751238499401546009303979955065637718666771933107463017205612175563144164947int, 16369088046039815266569265178834703379693792126656804318352537778988325070843int);
    lemma_fundamental_div_mod_converse(16369088046039815266569265178834703379693792126656804318352537778988325070843int * 3, m, 2int, 5330778394440895355214984045989559961688754065374765629679537547674522795363int);
    assert(mod_pow(3, 1545005239162662682146831145798497460563729749889612611nat, 21888242871839275222246405745257275088696311157297823662689037894645226208583nat) == 5330778394440895355214984045989559961688754065374765629679537547674522795363nat);
    lemma_fundamental_div_mod_converse(5330778394440895355214984045989559961688754065374765629679537547674522795363int * 5330778394440895355214984045989559961688754065374765629679537547674522795363int, m, 1298285954565979508238188882871606929193209922727583000521968290788030368996int, 19271491081200096217747127156493089253245653412413758143336575856764022009101int);
    lemma_fundamental_div_mod_converse(19271491081200096217747127156493089253245653412413758143336575856764022009101int * 3, m, 2int, 14037987499921738208748569978964717582344337922645627104631651781001613610137int);
    assert(mod_pow(3, 3090010478325325364293662291596994921127459499779225223nat, 21888242871839275222246405745257275088696311157297823662689037894645226208583nat) == 14037987499921738208748569978964717582344337922645627104631651781001613610137nat);
    lemma_fundamental_div_mod_converse(14037987499921738208748569978964717582344337922645627104631651781001613610137int * 14037987499921738208748569978964717582344337922645627104631651781001613610137int, m, 9003239510901842371279579530454837772571964075356271474639021582076705869967int, 16641413481985425188318298039854562125111813373223494728191206272806211832008int);
    assert(mod_pow(3, 6180020956650650728587324583193989842254918999558450446nat, 21888242871839275222246405745257275088696311157297823662689037894645226208583nat) == 16641413481985425188318298039854562125111813373223494728191206272806211832008nat);
    lemma_fundamental_div_mod_converse(16641413481985425188318298039854562125111813373223494728191206272806211832008int * 16641413481985425188318298039854562125111813373223494728191206272806211832008int, m, 12652301251403978468037745700189237156790599361304494467838237971780796853873int, 8962377850369523529062038149838027366615052351490854535152464168685143920105int);
    assert(mod_pow(3, 12360041913301301457174649166387979684509837999116900892nat, 21888242871839275222246405745257275088696311157297823662689037894645226208583nat) == 8962377850369523529062038149838027366615052351490854535152464168685143920105nat);
    lemma_fundamental_div_mod_converse(8962377850369523529062038149838027366615052351490854535152464168685143920105int * 8962377850369523529062038149838027366615052351490854535152464168685143920105int, m, 3669742573815134887341210425712869437095709770342478920858135769616032421689int, 11871657059085470207166345891812256090409448156947239264440934433249296054338int);
    assert(mod_pow(3, 24720083826602602914349298332775959369019675998233801784nat, 21888242871839275222246405745257275088696311157297823662689037894645226208583nat) == 11871657059085470207166345891812256090409448156947239264440934433249296054338nat);
    lemma_fundamental_div_mod_converse(11871657059085470207166345891812256090409448156947239264440934433249296054338int * 11871657059085470207166345891812256090409448156947239264440934433249296054338int, m, 6438901567099203306064159774547800037938680385214355552496075714236080541056int, 5655806824824964466603139935266337062468202600568995285218181664708897534596int);
    assert(mod_pow(3, 49440167653205205828698596665551918738039351996467603568nat, 21888242871839275222246405745257275088696311157297823662689037894645226208583nat) == 5655806824824964466603139935266337062468202600568995285218181664708897534596nat);
    lemma_fundamental_div_mod_converse(5655806824824964466603139935266337062468202600568995285218181664708897534596int * 5655806824824964466603139935266337062468202600568995285218181664708897534596int, m, 1461430733706431728692165194020043897039328952906180101171416141639421523412int, 12408640200385007060338239346918794919375760912437060972834772275796287038020int);
    lemma_fundamental_div_mod_converse(12408640200385007060338239346918794919375760912437060972834772275796287038020int * 3, m, 1int, 15337677729315745958768312295499109669430971580013359255815278932743634905477int);
    assert(mod_pow(3, 98880335306410411657397193331103837476078703992935207137nat, 21888242871839275222246405745257275088696311157297823662689037894645226208583nat) == 15337677729315745958768312295499109669430971580013359255815278932743634905477nat);
    lemma_fundamental_div_mod_converse(15337677729315745958768312295499109669430971580013359255815278932743634905477int * 15337677729315745958768312295499109669430971580013359255815278932743634905477int, m, 10747521375094307293519633205227793332074621508371768373241610680555660986501int, 1960493295191597224900220988694152925788643066942775487712926860256951259446int);
    assert(mod_pow(3, 197760670612820823314794386662207674952157407985870414274nat, 21888242871839275222246405745257275088696311157297823662689037894645226208583nat) == 1960493295191597224900220988694152925788643066942775487712926860256951259446nat);
    lemma_fundamental_div_mod_converse(1960493295191597224900220988694152925788643066942775487712926860256951259446int * 1960493295191597224900220988694152925788643066942775487712926860256951259446int, m, 175598104562160952107393803853946308231577353553160331669258199083184594266int, 9805803933493766289435188496363191951700005839501692540969270659119262441838int);
    assert(mod_pow(3, 395521341225641646629588773324415349904314815971740828548nat, 21888242871839275222246405745257275088696311157297823662689037894645226208583nat) == 9805803933493766289435188496363191951700005839501692540969270659119262441838nat);
    lemma_fundamental_div_mod_converse(9805803933493766289435188496363191951700005839501692540969270659119262441838int * 9805803933493766289435188496363191951700005839501692540969270659119262441838int, m, 4392942427819560701669658183153491454896312867719901503146862908360155027556int, 20801393477844021385383555598544327292021396078818387678364783157098564105096int);
    assert(mod_pow(3, 791042682451283293259177546648830699808629631943481657096nat, 21888242871839275222246405745257275088696311157297823662689037894645226208583nat) == 20801393477844021385383555598544327292021396078818387678364783157098564105096nat);
    lemma_fundamental_div_mod_converse(20801393477844021385383555598544327292021396078818387678364783157098564105096int * 20801393477844021385383555598544327292021396078818387678364783157098564105096int, m, 19768511029123648375063577852057409175395915526570323793578810093896100334197int, 13520842476507549549806168590344062206895135129507757838364108476485803356365int);
    lemma_fundamental_div_mod_converse(13520842476507549549806168590344062206895135129507757838364108476485803356365int * 3, m, 1int, 18674284557683373427172100025774911531989094231225449852403287534812183860512int);
    assert(mod_pow(3, 1582085364902566586518355093297661399617259263886963314193nat, 21888242871839275222246405745257275088696311157297823662689037894645226208583nat) == 18674284557683373427172100025774911531989094231225449852403287534812183860512nat);
    lemma_fundamental_div_mod_converse(18674284557683373427172100025774911531989094231225449852403287534812183860512int * 18674284557683373427172100025774911531989094231225449852403287534812183860512int, m, 15932247544182513805511523794977081701931762101481560767561374753969509349906int, 13711079942434778824980029357465854166097917044218191925111253103558385458946int);
    lemma_fundamental_div_mod_converse(13711079942434778824980029357465854166097917044218191925111253103558385458946int * 3, m, 1int, 19244996955465061252693682327140287409597439975356752112644721416029930168255int);
    assert(mod_pow(3, 3164170729805133173036710186595322799234518527773926628387nat, 21888242871839275222246405745257275088696311157297823662689037894645226208583nat) == 19244996955465061252693682327140287409597439975356752112644721416029930168255nat);
    lemma_fundamental_div_mod_converse(19244996955465061252693682327140287409597439975356752112644721416029930168255int * 19244996955465061252693682327140287409597439975356752112644721416029930168255int, m, 16920952037331683216565527907213766725178723742758028354073416405487188593251int, 10668565591614823185226081046248346447871374773825377259077006734544537671692int);
    assert(mod_pow(3, 6328341459610266346073420373190645598469037055547853256774nat, 21888242871839275222246405745257275088696311157297823662689037894645226208583nat) == 10668565591614823185226081046248346447871374773825377259077006734544537671692nat);
    lemma_fundamental_div_mod_converse(10668565591614823185226081046248346447871374773825377259077006734544537671692int * 10668565591614823185226081046248346447871374773825377259077006734544537671692int, m, 5199973906038057365386786966598114693090924888314704740770149802277560763515int, 18936599678595404054958438955432602852860580651362811762546356677558251893619int);
    lemma_fundamental_div_mod_converse(18936599678595404054958438955432602852860580651362811762546356677558251893619int * 3, m, 2int, 13033313292107661720382505375783258381189119639492787962260994243384303263691int);
    assert(mod_pow(3, 12656682919220532692146840746381291196938074111095706513549nat, 21888242871839275222246405745257275088696311157297823662689037894645226208583nat) == 13033313292107661720382505375783258381189119639492787962260994243384303263691nat);
    lemma_fundamental_div_mod_converse(13033313292107661720382505375783258381189119639492787962260994243384303263691int * 13033313292107661720382505375783258381189119639492787962260994243384303263691int, m, 7760662030517585432185672101460180943653281995890272720209258405223236148448int, 7124584761641479438703545926401835070441969041347928067017868000779479214297int);
    assert(mod_pow(3, 25313365838441065384293681492762582393876148222191413027098nat, 21888242871839275222246405745257275088696311157297823662689037894645226208583nat) == 7124584761641479438703545926401835070441969041347928067017868000779479214297nat);
    lemma_fundamental_div_mod_converse(7124584761641479438703545926401835070441969041347928067017868000779479214297int * 7124584761641479438703545926401835070441969041347928067017868000779479214297int, m, 2319039875563507204717451256982367614821276158881592182253833894435440949996int, 14433243820031792781069982201508321060390339281686881686665263667369680188541int);
    assert(mod_pow(3, 50626731676882130768587362985525164787752296444382826054196nat, 21888242871839275222246405745257275088696311157297823662689037894645226208583nat) == 14433243820031792781069982201508321060390339281686881686665263667369680188541nat);
    lemma_fundamental_div_mod_converse(14433243820031792781069982201508321060390339281686881686665263667369680188541int * 14433243820031792781069982201508321060390339281686881686665263667369680188541int, m, 9517370964322677662530559998900856767262835847089301971765600227405435712321int, 7781858770407193772711308844069711956688353790150809096593933693682578657538int);
    lemma_fundamental_div_mod_converse(7781858770407193772711308844069711956688353790150809096593933693682578657538int * 3, m, 1int, 1457333439382306095887520786951860781368750213154603627092763186402509764031int);
    assert(mod_pow(3, 101253463353764261537174725971050329575504592888765652108393nat, 21888242871839275222246405745257275088696311157297823662689037894645226208583nat) == 1457333439382306095887520786951860781368750213154603627092763186402509764031nat);
    lemma_fundamental_div_mod_converse(1457333439382306095887520786951860781368750213154603627092763186402509764031int * 1457333439382306095887520786951860781368750213154603627092763186402509764031int, m, 97030207768495780544534491461125907864118165141299389724429517731978095971int, 15432087530656452196292403499877458666356034357426376848458514558119663449868int);
    assert(mod_pow(3, 202506926707528523074349451942100659151009185777531304216786nat, 21888242871839275222246405745257275088696311157297823662689037894645226208583nat) == 15432087530656452196292403499877458666356034357426376848458514558119663449868nat);
    lemma_fundamental_div_mod_converse(15432087530656452196292403499877458666356034357426376848458514558119663449868int * 15432087530656452196292403499877458666356034357426376848458514558119663449868int, m, 10880239539933001547849544271569457225681379098394187346780742567078787890561int, 8650301076688436860547273696987552637256162200733192071822914918384986332361int);
    lemma_fundamental_div_mod_converse(8650301076688436860547273696987552637256162200733192071822914918384986332361int * 3, m, 1int, 4062660358226035359395415345705382823072175444901752552779706860509732788500int);
    assert(mod_pow(3, 405013853415057046148698903884201318302018371555062608433573nat, 21888242871839275222246405745257275088696311157297823662689037894645226208583nat) == 4062660358226035359395415345705382823072175444901752552779706860509732788500nat);
    lemma_fundamental_div_mod_converse(4062660358226035359395415345705382823072175444901752552779706860509732788500int * 4062660358226035359395415345705382823072175444901752552779706860509732788500int, m, 754067344872912613517856223078313428539781754322039910171454125843570276258int, 18864117351403395329784734625596277608016438103135311696815809121722491527586int);
    lemma_fundamental_div_mod_converse(18864117351403395329784734625596277608016438103135311696815809121722491527586int * 3, m, 2int, 12815866310531635544861392386274282646656691994810287765069351575877022165592int);
    assert(mod_pow(3, 810027706830114092297397807768402636604036743110125216867147nat, 21888242871839275222246405745257275088696311157297823662689037894645226208583nat) == 12815866310531635544861392386274282646656691994810287765069351575877022165592nat);
    lemma_fundamental_div_mod_converse(12815866310531635544861392386274282646656691994810287765069351575877022165592int * 12815866310531635544861392386274282646656691994810287765069351575877022165592int, m, 7503865442791392165206754180965244440948241573578078620668638636396493701317int, 8114173224905261500544755794279234849619325337878626988652446925873124906653int);
    assert(mod_pow(3, 1620055413660228184594795615536805273208073486220250433734294nat, 21888242871839275222246405745257275088696311157297823662689037894645226208583nat) == 8114173224905261500544755794279234849619325337878626988652446925873124906653nat);
    lemma_fundamental_div_mod_converse(8114173224905261500544755794279234849619325337878626988652446925873124906653int * 8114173224905261500544755794279234849619325337878626988652446925873124906653int, m, 3007998746600024082724666282480796378798713777773140677502771228660011121509int, 1570597552803262593817235903094652898764255285275193580615901143944171950662int);
    assert(mod_pow(3, 3240110827320456369189591231073610546416146972440500867468588nat, 21888242871839275222246405745257275088696311157297823662689037894645226208583nat) == 1570597552803262593817235903094652898764255285275193580615901143944171950662nat);
    lemma_fundamental_div_mod_converse(1570597552803262593817235903094652898764255285275193580615901143944171950662int * 1570597552803262593817235903094652898764255285275193580615901143944171950662int, m, 112698707123963546004730632026460426607213219673606735642342777067409867855int, 9507297844558982780135541666045986426413745865626139459483919930723465438779int);
    assert(mod_pow(3, 6480221654640912738379182462147221092832293944881001734937176nat, 21888242871839275222246405745257275088696311157297823662689037894645226208583nat) == 9507297844558982780135541666045986426413745865626139459483919930723465438779nat);
    lemma_fundamental_div_mod_converse(9507297844558982780135541666045986426413745865626139459483919930723465438779int * 9507297844558982780135541666045986426413745865626139459483919930723465438779int, m, 4129555434595764374730688794764599126977826845224507237810333656757571702485int, 9381792830126527507254432365436327490983139322948147915963118685525967582086int);
    assert(mod_pow(3, 12960443309281825476758364924294442185664587889762003469874352nat, 21888242871839275222246405745257275088696311157297823662689037894645226208583nat) == 9381792830126527507254432365436327490983139322948147915963118685525967582086nat);
    lemma_fundamental_div_mod_converse(9381792830126527507254432365436327490983139322948147915963118685525967582086int * 9381792830126527507254432365436327490983139322948147915963118685525967582086int, m, 4021247261499220479461405623790538620497998181722452571755736939190996941399int, 2683782345138945790615666518455721666594356980720062425901097732566946283779int);
    assert(mod_pow(3, 25920886618563650953516729848588884371329175779524006939748704nat, 21888242871839275222246405745257275088696311157297823662689037894645226208583nat) == 2683782345138945790615666518455721666594356980720062425901097732566946283779nat);
    lemma_fundamental_div_mod_converse(2683782345138945790615666518455721666594356980720062425901097732566946283779int * 2683782345138945790615666518455721666594356980720062425901097732566946283779int, m, 329066509278652556707707450545596260857779589254350759011162333238007124055int, 18923483029689140010720759947632203679301824599010040052645388568067011756776int);
    assert(mod_pow(3, 51841773237127301907033459697177768742658351559048013879497408nat, 21888242871839275222246405745257275088696311157297823662689037894645226208583nat) == 18923483029689140010720759947632203679301824599010040052645388568067011756776nat);
    lemma_fundamental_div_mod_converse(18923483029689140010720759947632203679301824599010040052645388568067011756776int * 18923483029689140010720759947632203679301824599010040052645388568067011756776int, m, 16360299548560417625164858109852697425197396916193432798934903549939983702768int, 14682967207099324755145993481579842941574308686051580679996676756399539456432int);
    assert(mod_pow(3, 103683546474254603814066919394355537485316703118096027758994816nat, 21888242871839275222246405745257275088696311157297823662689037894645226208583nat) == 14682967207099324755145993481579842941574308686051580679996676756399539456432nat);
    lemma_fundamental_div_mod_converse(14682967207099324755145993481579842941574308686051580679996676756399539456432int * 14682967207099324755145993481579842941574308686051580679996676756399539456432int, m, 9849558380134974096971083925872349344557699863235321346903004443138290899944int, 906642850262859679709098464722635361640502538095036194428841172579899151272int);
    lemma_fundamental_div_mod_converse(906642850262859679709098464722635361640502538095036194428841172579899151272int * 3, m, 0int, 2719928550788579039127295394167906084921507614285108583286523517739697453816int);
    assert(mod_pow(3, 207367092948509207628133838788711074970633406236192055517989633nat, 21888242871839275222246405745257275088696311157297823662689037894645226208583nat) == 2719928550788579039127295394167906084921507614285108583286523517739697453816nat);
    lemma_fundamental_div_mod_converse(2719928550788579039127295394167906084921507614285108583286523517739697453816int * 2719928550788579039127295394167906084921507614285108583286523517739697453816int, m, 337990187915582225423932150276056793756832042606472893434191431139845419528int, 130648998535040475677342909246261611826059794200616544054328791122983553032int);
    assert(mod_pow(3, 414734185897018415256267677577422149941266812472384111035979266nat, 21888242871839275222246405745257275088696311157297823662689037894645226208583nat) == 130648998535040475677342909246261611826059794200616544054328791122983553032nat);
    lemma_fundamental_div_mod_converse(130648998535040475677342909246261611826059794200616544054328791122983553032int * 130648998535040475677342909246261611826059794200616544054328791122983553032int, m, 779832393040998907813166352198948724758952306019976999362170803845341048int, 10831656457597731069003860212014313540704567388666422178883583226865136578040int);
    lemma_fundamental_div_mod_converse(10831656457597731069003860212014313540704567388666422178883583226865136578040int * 3, m, 1int, 10606726500953917984765174890785665533417391008701442873961711785950183525537int);
    assert(mod_pow(3, 829468371794036830512535355154844299882533624944768222071958533nat, 21888242871839275222246405745257275088696311157297823662689037894645226208583nat) == 10606726500953917984765174890785665533417391008701442873961711785950183525537nat);
    lemma_fundamental_div_mod_converse(10606726500953917984765174890785665533417391008701442873961711785950183525537int * 10606726500953917984765174890785665533417391008701442873961711785950183525537int, m, 5139866535873489929504566773194854849003747206224681954530434157268172842557int, 13842436530834843765334897788318585792450510032684086571880668354943830071638int);
    lemma_fundamental_div_mod_converse(13842436530834843765334897788318585792450510032684086571880668354943830071638int * 3, m, 1int, 19639066720665256073758287619698482288655218940754436052952967170186264006331int);
    assert(mod_pow(3, 1658936743588073661025070710309688599765067249889536444143917067nat, 21888242871839275222246405745257275088696311157297823662689037894645226208583nat) == 19639066720665256073758287619698482288655218940754436052952967170186264006331nat);
    lemma_fundamental_div_mod_converse(19639066720665256073758287619698482288655218940754436052952967170186264006331int * 19639066720665256073758287619698482288655218940754436052952967170186264006331int, m, 17621009777580729510720436561745189506561909976037457033407634640583365894073int, 7863580864452221455885219851937889949523969617831966151738505163121026653002int);
    lemma_fundamental_div_mod_converse(7863580864452221455885219851937889949523969617831966151738505163121026653002int * 3, m, 1int, 1702499721517389145409253810556394759875597696198074792526477594717853750423int);
    assert(mod_pow(3, 3317873487176147322050141420619377199530134499779072888287834135nat, 21888242871839275222246405745257275088696311157297823662689037894645226208583nat) == 1702499721517389145409253810556394759875597696198074792526477594717853750423nat);
    lemma_fundamental_div_mod_converse(1702499721517389145409253810556394759875597696198074792526477594717853750423int * 1702499721517389145409253810556394759875597696198074792526477594717853750423int, m, 132422932198724518933151250043353551156559518930171611233068529556159574323int, 17503175983868399120816291000200685215293040562064901756476937843802283664620int);
    assert(mod_pow(3, 6635746974352294644100282841238754399060268999558145776575668270nat, 21888242871839275222246405745257275088696311157297823662689037894645226208583nat) == 17503175983868399120816291000200685215293040562064901756476937843802283664620nat);
    lemma_fundamental_div_mod_converse(17503175983868399120816291000200685215293040562064901756476937843802283664620int * 17503175983868399120816291000200685215293040562064901756476937843802283664620int, m, 13996608650410314369553354689818875221855858468710069224416152179565389913522int, 1582179634938367567635895812354640363593453824940974567086162538226335585074int);
    lemma_fundamental_div_mod_converse(1582179634938367567635895812354640363593453824940974567086162538226335585074int * 3, m, 0int, 4746538904815102702907687437063921090780361474822923701258487614679006755222int);
    assert(mod_pow(3, 13271493948704589288200565682477508798120537999116291553151336541nat, 21888242871839275222246405745257275088696311157297823662689037894645226208583nat) == 4746538904815102702907687437063921090780361474822923701258487614679006755222nat);
    lemma_fundamental_div_mod_converse(4746538904815102702907687437063921090780361474822923701258487614679006755222int * 4746538904815102702907687437063921090780361474822923701258487614679006755222int, m, 1029302886798157284016084628953715463092239338762387475787150372568786941689int, 1600116536069364908341340440302342739158511873003783843140166533595651952597int);
    assert(mod_pow(3, 26542987897409178576401131364955017596241075998232583106302673082nat, 21888242871839275222246405745257275088696311157297823662689037894645226208583nat) == 1600116536069364908341340440302342739158511873003783843140166533595651952597nat);
    lemma_fundamental_div_mod_converse(1600116536069364908341340440302342739158511873003783843140166533595651952597int * 1600116536069364908341340440302342739158511873003783843140166533595651952597int, m, 116974804418710030071982890831401498695637922526840030509586257681104965550int, 123706201194669305333998692048353926325678302894888402111350934737405728759int);
    lemma_fundamental_div_mod_converse(123706201194669305333998692048353926325678302894888402111350934737405728759int * 3, m, 0int, 371118603584007916001996076145061778977034908684665206334052804212217186277int);
    assert(mod_pow(3, 53085975794818357152802262729910035192482151996465166212605346165nat, 21888242871839275222246405745257275088696311157297823662689037894645226208583nat) == 371118603584007916001996076145061778977034908684665206334052804212217186277nat);
    lemma_fundamental_div_mod_converse(371118603584007916001996076145061778977034908684665206334052804212217186277int * 371118603584007916001996076145061778977034908684665206334052804212217186277int, m, 6292374346016684388724625146162999916714030375806949581164795547857335117int, 1631544758673313819660266326342694786604932466471130718952205302398944411518int);
    lemma_fundamental_div_mod_converse(1631544758673313819660266326342694786604932466471130718952205302398944411518int * 3, m, 0int, 4894634276019941458980798979028084359814797399413392156856615907196833234554int);
    assert(mod_pow(3, 106171951589636714305604525459820070384964303992930332425210692331nat, 21888242871839275222246405745257275088696311157297823662689037894645226208583nat) == 4894634276019941458980798979028084359814797399413392156856615907196833234554nat);
    lemma_fundamental_div_mod_converse(4894634276019941458980798979028084359814797399413392156856615907196833234554int * 4894634276019941458980798979028084359814797399413392156856615907196833234554int, m, 1094534853083714235948632157923715561305248448451269642675281706604963111258int, 21785709766457321014519174896857036351250607536559273888102075321415036051502int);
    assert(mod_pow(3, 212343903179273428611209050919640140769928607985860664850421384662nat, 21888242871839275222246405745257275088696311157297823662689037894645226208583nat) == 21785709766457321014519174896857036351250607536559273888102075321415036051502nat);
    lemma_fundamental_div_mod_converse(21785709766457321014519174896857036351250607536559273888102075321415036051502int * 21785709766457321014519174896857036351250607536559273888102075321415036051502int, m, 21683656966313243743479777992670144711625535956094394584661352095616846410336int, 7790167823885556984754056084234471759332570707414605494876513942240053342116int);
    assert(mod_pow(3, 424687806358546857222418101839280281539857215971721329700842769324nat, 21888242871839275222246405745257275088696311157297823662689037894645226208583nat) == 7790167823885556984754056084234471759332570707414605494876513942240053342116nat);
    lemma_fundamental_div_mod_converse(7790167823885556984754056084234471759332570707414605494876513942240053342116int * 7790167823885556984754056084234471759332570707414605494876513942240053342116int, m, 2772571333370000779351457736646925149498309576664568209688205547718216854947int, 19120593374547556576340065642638460954395752095681939833368859828202061947355int);
    lemma_fundamental_div_mod_converse(19120593374547556576340065642638460954395752095681939833368859828202061947355int * 3, m, 2int, 13585294379964119284527385437400832685794633972450172174728503695315733424899int);
    assert(mod_pow(3, 849375612717093714444836203678560563079714431943442659401685538649nat, 21888242871839275222246405745257275088696311157297823662689037894645226208583nat) == 13585294379964119284527385437400832685794633972450172174728503695315733424899nat);
    lemma_fundamental_div_mod_converse(13585294379964119284527385437400832685794633972450172174728503695315733424899int * 13585294379964119284527385437400832685794633972450172174728503695315733424899int, m, 8431934188181640758975435015925770800587774892620886164145551595575051026026int, 8885854621992485585688790282631937195715067264606124393950036814932435579043int);
    assert(mod_pow(3, 1698751225434187428889672407357121126159428863886885318803371077298nat, 21888242871839275222246405745257275088696311157297823662689037894645226208583nat) == 8885854621992485585688790282631937195715067264606124393950036814932435579043nat);
    lemma_fundamental_div_mod_converse(8885854621992485585688790282631937195715067264606124393950036814932435579043int * 8885854621992485585688790282631937195715067264606124393950036814932435579043int, m, 3607343578262768117580462842006632061128222487746319564898686832639508872551int, 5161024500825262108973967299976746585731691638068970177639075227984011490616int);
    assert(mod_pow(3, 3397502450868374857779344814714242252318857727773770637606742154596nat, 21888242871839275222246405745257275088696311157297823662689037894645226208583nat) == 5161024500825262108973967299976746585731691638068970177639075227984011490616nat);
    lemma_fundamental_div_mod_converse(5161024500825262108973967299976746585731691638068970177639075227984011490616int * 5161024500825262108973967299976746585731691638068970177639075227984011490616int, m, 1216916956472002118358403722366135068571126982406600609917812535660337161757int, 3919179375399619934259809818074187860921992767294740482286302398393963299125int);
    lemma_fundamental_div_mod_converse(3919179375399619934259809818074187860921992767294740482286302398393963299125int * 3, m, 0int, 11757538126198859802779429454222563582765978301884221446858907195181889897375int);
    assert(mod_pow(3, 6795004901736749715558689629428484504637715455547541275213484309193nat, 21888242871839275222246405745257275088696311157297823662689037894645226208583nat) == 11757538126198859802779429454222563582765978301884221446858907195181889897375nat);
    lemma_fundamental_div_mod_converse(11757538126198859802779429454222563582765978301884221446858907195181889897375int * 11757538126198859802779429454222563582765978301884221446858907195181889897375int, m, 6315705815146753901358667966550758010991385479572452902163839666272121400620int, 6624788156995946416352983064183055125398215929117180853682153862749806369165int);
    assert(mod_pow(3, 13590009803473499431117379258856969009275430911095082550426968618386nat, 21888242871839275222246405745257275088696311157297823662689037894645226208583nat) == 6624788156995946416352983064183055125398215929117180853682153862749806369165nat);
    lemma_fundamental_div_mod_converse(6624788156995946416352983064183055125398215929117180853682153862749806369165int * 6624788156995946416352983064183055125398215929117180853682153862749806369165int, m, 2005086401044025086113282332242061569977298726291385209178613673831963156629int, 13678624244596301086583987567525192108396198502068429866498033782926009650518int);
    assert(mod_pow(3, 27180019606946998862234758517713938018550861822190165100853937236772nat, 21888242871839275222246405745257275088696311157297823662689037894645226208583nat) == 13678624244596301086583987567525192108396198502068429866498033782926009650518nat);
    lemma_fundamental_div_mod_converse(13678624244596301086583987567525192108396198502068429866498033782926009650518int * 13678624244596301086583987567525192108396198502068429866498033782926009650518int, m, 8548185540538789840091907351953203777059329378120642765573958679591442621074int, 14714852380546869272375441818197285045244410290800351119689071001499542190182int);
    lemma_fundamental_div_mod_converse(14714852380546869272375441818197285045244410290800351119689071001499542190182int * 3, m, 2int, 368071397962057372633513964077304958340608557805406033689137215208174153380int);
    assert(mod_pow(3, 54360039213893997724469517035427876037101723644380330201707874473545nat, 21888242871839275222246405745257275088696311157297823662689037894645226208583nat) == 368071397962057372633513964077304958340608557805406033689137215208174153380nat);
    lemma_fundamental_div_mod_converse(368071397962057372633513964077304958340608557805406033689137215208174153380int * 368071397962057372633513964077304958340608557805406033689137215208174153380int, m, 6189466865430440061623236128993184821962685974763147600554727516723538421int, 9883811865198129926994143926107168689596603219971925734842434739505804956957int);
    assert(mod_pow(3, 108720078427787995448939034070855752074203447288760660403415748947090nat, 21888242871839275222246405745257275088696311157297823662689037894645226208583nat) == 9883811865198129926994143926107168689596603219971925734842434739505804956957nat);
    lemma_fundamental_div_mod_converse(9883811865198129926994143926107168689596603219971925734842434739505804956957int * 9883811865198129926994143926107168689596603219971925734842434739505804956957int, m, 4463114630015179465087848248648627495189106431897261014016156979100171308292int, 5263715686622921457374280304964313475455135579333269792088991665226633229613int);
    assert(mod_pow(3, 217440156855575990897878068141711504148406894577521320806831497894180nat, 21888242871839275222246405745257275088696311157297823662689037894645226208583nat) == 5263715686622921457374280304964313475455135579333269792088991665226633229613nat);
    lemma_fundamental_div_mod_converse(5263715686622921457374280304964313475455135579333269792088991665226633229613int * 5263715686622921457374280304964313475455135579333269792088991665226633229613int, m, 1265825813055409113130389233604789780330362717659830709150515650383321453983int, 20738772993489803987131185649607827680928309904269592038839867880844785993680int);
    assert(mod_pow(3, 434880313711151981795756136283423008296813789155042641613662995788360nat, 21888242871839275222246405745257275088696311157297823662689037894645226208583nat) == 20738772993489803987131185649607827680928309904269592038839867880844785993680nat);
    lemma_fundamental_div_mod_converse(20738772993489803987131185649607827680928309904269592038839867880844785993680int * 20738772993489803987131185649607827680928309904269592038839867880844785993680int, m, 19649667988144034057569743616803753021115469885017678257804325893737937154767int, 16252670758084697683730979025862614662896482833941555033425499058067105177239int);
    assert(mod_pow(3, 869760627422303963591512272566846016593627578310085283227325991576720nat, 21888242871839275222246405745257275088696311157297823662689037894645226208583nat) == 16252670758084697683730979025862614662896482833941555033425499058067105177239nat);
    lemma_fundamental_div_mod_converse(16252670758084697683730979025862614662896482833941555033425499058067105177239int * 16252670758084697683730979025862614662896482833941555033425499058067105177239int, m, 12068090998320729111421386397584385615587887708796983784086605447410267715217int, 19649964134626487709977544567269500577925309749337323512263319543802718555610int);
    assert(mod_pow(3, 1739521254844607927183024545133692033187255156620170566454651983153440nat, 21888242871839275222246405745257275088696311157297823662689037894645226208583nat) == 19649964134626487709977544567269500577925309749337323512263319543802718555610nat);
    lemma_fundamental_div_mod_converse(19649964134626487709977544567269500577925309749337323512263319543802718555610int * 19649964134626487709977544567269500577925309749337323512263319543802718555610int, m, 17640570453870399139864703044962362363750899074259540568560642730774918783093int, 4477872968287255787324234316210743131001096578577169145083665873756110584881int);
    lemma_fundamental_div_mod_converse(4477872968287255787324234316210743131001096578577169145083665873756110584881int * 3, m, 0int, 13433618904861767361972702948632229393003289735731507435250997621268331754643int);
    assert(mod_pow(3, 3479042509689215854366049090267384066374510313240341132909303966306881nat, 21888242871839275222246405745257275088696311157297823662689037894645226208583nat) == 13433618904861767361972702948632229393003289735731507435250997621268331754643nat);
    lemma_fundamental_div_mod_converse(13433618904861767361972702948632229393003289735731507435250997621268331754643int * 13433618904861767361972702948632229393003289735731507435250997621268331754643int, m, 8244705522398801274081890024140252414112814256082719789258386117423047444895int, 9481531366947765807623133855881435688206088040902778725412746894464683523664int);
    assert(mod_pow(3, 6958085019378431708732098180534768132749020626480682265818607932613762nat, 21888242871839275222246405745257275088696311157297823662689037894645226208583nat) == 9481531366947765807623133855881435688206088040902778725412746894464683523664nat);
    lemma_fundamental_div_mod_converse(9481531366947765807623133855881435688206088040902778725412746894464683523664int * 9481531366947765807623133855881435688206088040902778725412746894464683523664int, m, 4107202098806942440008038341181220081807041224109844948188885688686831441533int, 2672323940428338654119981919634113005735285095505393882638217834857220707157int);
    lemma_fundamental_div_mod_converse(2672323940428338654119981919634113005735285095505393882638217834857220707157int * 3, m, 0int, 8016971821285015962359945758902339017205855286516181647914653504571662121471int);
    assert(mod_pow(3, 13916170038756863417464196361069536265498041252961364531637215865227525nat, 21888242871839275222246405745257275088696311157297823662689037894645226208583nat) == 8016971821285015962359945758902339017205855286516181647914653504571662121471nat);
    lemma_fundamental_div_mod_converse(8016971821285015962359945758902339017205855286516181647914653504571662121471int * 8016971821285015962359945758902339017205855286516181647914653504571662121471int, m, 2936363487905560018661162985499896992220244732074541647516129813906749055352int, 2628518771885327638902627568921245065860821800798767140912601104736594717625int);
    assert(mod_pow(3, 27832340077513726834928392722139072530996082505922729063274431730455050nat, 21888242871839275222246405745257275088696311157297823662689037894645226208583nat) == 2628518771885327638902627568921245065860821800798767140912601104736594717625nat);
    lemma_fundamental_div_mod_converse(2628518771885327638902627568921245065860821800798767140912601104736594717625int * 2628518771885327638902627568921245065860821800798767140912601104736594717625int, m, 315653978010386383103356087426528266053451042686869018030073923679679801380int, 1801611366203011077264159524514818515934157325650386808590497909189594396085int);
    assert(mod_pow(3, 55664680155027453669856785444278145061992165011845458126548863460910100nat, 21888242871839275222246405745257275088696311157297823662689037894645226208583nat) == 1801611366203011077264159524514818515934157325650386808590497909189594396085nat);
    lemma_fundamental_div_mod_converse(1801611366203011077264159524514818515934157325650386808590497909189594396085int * 1801611366203011077264159524514818515934157325650386808590497909189594396085int, m, 148289816310829993071767343098957128033519297224958491827367933820332879398int, 14250271013439783548445122477276183831703772884771502918168857255888931854191int);
    lemma_fundamental_div_mod_converse(14250271013439783548445122477276183831703772884771502918168857255888931854191int * 3, m, 1int, 20862570168480075423088961686571276406415007497016685091817533873021569353990int);
    assert(mod_pow(3, 111329360310054907339713570888556290123984330023690916253097726921820201nat, 21888242871839275222246405745257275088696311157297823662689037894645226208583nat) == 20862570168480075423088961686571276406415007497016685091817533873021569353990nat);
    lemma_fundamental_div_mod_converse(20862570168480075423088961686571276406415007497016685091817533873021569353990int * 20862570168480075423088961686571276406415007497016685091817533873021569353990int, m, 19884960002647341257149158078089783117323863192931783072455153025943556575862int, 889675257480196978679747859693070863224415362581809415126083341549853896554int);
    lemma_fundamental_div_mod_converse(889675257480196978679747859693070863224415362581809415126083341549853896554int * 3, m, 0int, 2669025772440590936039243579079212589673246087745428245378250024649561689662int);
    assert(mod_pow(3, 222658720620109814679427141777112580247968660047381832506195453843640403nat, 21888242871839275222246405745257275088696311157297823662689037894645226208583nat) == 2669025772440590936039243579079212589673246087745428245378250024649561689662nat);
    lemma_fundamental_div_mod_converse(2669025772440590936039243579079212589673246087745428245378250024649561689662int * 2669025772440590936039243579079212589673246087745428245378250024649561689662int, m, 325457763588561949748442248769907269953781910842916939001143905462556092866int, 1796799570127858517644346058736642766368747160637725611354977576657163405366int);
    assert(mod_pow(3, 445317441240219629358854283554225160495937320094763665012390907687280806nat, 21888242871839275222246405745257275088696311157297823662689037894645226208583nat) == 1796799570127858517644346058736642766368747160637725611354977576657163405366nat);
    lemma_fundamental_div_mod_converse(1796799570127858517644346058736642766368747160637725611354977576657163405366int * 1796799570127858517644346058736642766368747160637725611354977576657163405366int, m, 147498760595594868935644831697714412216214492728189310845671262691254222414int, 4626300028020836002265137685541419654049461722115727066693548027062599814594int);
    lemma_fundamental_div_mod_converse(4626300028020836002265137685541419654049461722115727066693548027062599814594int * 3, m, 0int, 13878900084062508006795413056624258962148385166347181200080644081187799443782int);
    assert(mod_pow(3, 890634882480439258717708567108450320991874640189527330024781815374561613nat, 21888242871839275222246405745257275088696311157297823662689037894645226208583nat) == 13878900084062508006795413056624258962148385166347181200080644081187799443782nat);
    lemma_fundamental_div_mod_converse(13878900084062508006795413056624258962148385166347181200080644081187799443782int * 13878900084062508006795413056624258962148385166347181200080644081187799443782int, m, 8800334895370431984657785268648340818521168093872157150301051133052375126884int, 4032843041440283717421023358658156510892040782428206994355318390411703618152int);
    assert(mod_pow(3, 1781269764960878517435417134216900641983749280379054660049563630749123226nat, 21888242871839275222246405745257275088696311157297823662689037894645226208583nat) == 4032843041440283717421023358658156510892040782428206994355318390411703618152nat);
    lemma_fundamental_div_mod_converse(4032843041440283717421023358658156510892040782428206994355318390411703618152int * 4032843041440283717421023358658156510892040782428206994355318390411703618152int, m, 743039223939617419786903255969226655746065141918959648330731919700515646688int, 16102661030244575289529404734191152936039862222203439109698189144881202772000int);
    lemma_fundamental_div_mod_converse(16102661030244575289529404734191152936039862222203439109698189144881202772000int * 3, m, 2int, 4531497347055175424095402712058908630726964352014670003716491645353155898834int);
    assert(mod_pow(3, 3562539529921757034870834268433801283967498560758109320099127261498246453nat, 21888242871839275222246405745257275088696311157297823662689037894645226208583nat) == 4531497347055175424095402712058908630726964352014670003716491645353155898834nat);
    lemma_fundamental_div_mod_converse(4531497347055175424095402712058908630726964352014670003716491645353155898834int * 4531497347055175424095402712058908630726964352014670003716491645353155898834int, m, 938150601060220044495204539042180090100002264088366580767705518323986701682int, 10203257445796959523899600382865791017366007835034396791367262881662113622950int);
    assert(mod_pow(3, 7125079059843514069741668536867602567934997121516218640198254522996492906nat, 21888242871839275222246405745257275088696311157297823662689037894645226208583nat) == 10203257445796959523899600382865791017366007835034396791367262881662113622950nat);
    lemma_fundamental_div_mod_converse(10203257445796959523899600382865791017366007835034396791367262881662113622950int * 10203257445796959523899600382865791017366007835034396791367262881662113622950int, m, 4756273178928912305539515270393372223211790930189936678249969953512205572692int, 7654807415332049703815142409804894453509033261143639921215130665831405887064int);
    assert(mod_pow(3, 14250158119687028139483337073735205135869994243032437280396509045992985812nat, 21888242871839275222246405745257275088696311157297823662689037894645226208583nat) == 7654807415332049703815142409804894453509033261143639921215130665831405887064nat);
    lemma_fundamental_div_mod_converse(7654807415332049703815142409804894453509033261143639921215130665831405887064int * 7654807415332049703815142409804894453509033261143639921215130665831405887064int, m, 2677057126463559313278630548854623519793357186667431621365883102125331723965int, 14924036320461327693661607403999687594037704042711667543074876919568652748501int);
    lemma_fundamental_div_mod_converse(14924036320461327693661607403999687594037704042711667543074876919568652748501int * 3, m, 2int, 995623217705432636492010721484512604720489813539355303846554969415505828337int);
    assert(mod_pow(3, 28500316239374056278966674147470410271739988486064874560793018091985971625nat, 21888242871839275222246405745257275088696311157297823662689037894645226208583nat) == 995623217705432636492010721484512604720489813539355303846554969415505828337nat);
    lemma_fundamental_div_mod_converse(995623217705432636492010721484512604720489813539355303846554969415505828337int * 995623217705432636492010721484512604720489813539355303846554969415505828337int, m, 45287581896738291449771554952758402484087192427932156664923509165928144528int, 14004504198193647611748054077911075629054581219395234087205597118003014101745int);
    lemma_fundamental_div_mod_converse(14004504198193647611748054077911075629054581219395234087205597118003014101745int * 3, m, 1int, 20125269722741667612997756488475951798467432500887878598927753459363816096652int);
    assert(mod_pow(3, 57000632478748112557933348294940820543479976972129749121586036183971943251nat, 21888242871839275222246405745257275088696311157297823662689037894645226208583nat) == 20125269722741667612997756488475951798467432500887878598927753459363816096652nat);
    lemma_fundamental_div_mod_converse(20125269722741667612997756488475951798467432500887878598927753459363816096652int * 20125269722741667612997756488475951798467432500887878598927753459363816096652int, m, 18504294007729455960768684868282515855082208319016586224314225181556579005587int, 19367406355533788762318388423480026437560841269222150564567786866301021255883int);
    lemma_fundamental_div_mod_converse(19367406355533788762318388423480026437560841269222150564567786866301021255883int * 3, m, 2int, 14325733322922815842462353779925529135289901493070804368325284809612611350483int);
    assert(mod_pow(3, 114001264957496225115866696589881641086959953944259498243172072367943886503nat, 21888242871839275222246405745257275088696311157297823662689037894645226208583nat) == 14325733322922815842462353779925529135289901493070804368325284809612611350483nat);
    lemma_fundamental_div_mod_converse(14325733322922815842462353779925529135289901493070804368325284809612611350483int * 14325733322922815842462353779925529135289901493070804368325284809612611350483int, m, 9376112849311413500822135502110946572738971114822562387262028616535645679926int, 13932481249471586230061187920721099619868902268307250482529534060088932328431int);
    assert(mod_pow(3, 228002529914992450231733393179763282173919907888518996486344144735887773006nat, 21888242871839275222246405745257275088696311157297823662689037894645226208583nat) == 13932481249471586230061187920721099619868902268307250482529534060088932328431nat);
    lemma_fundamental_div_mod_converse(13932481249471586230061187920721099619868902268307250482529534060088932328431int * 13932481249471586230061187920721099619868902268307250482529534060088932328431int, m, 8868415564623432726368242601100217599897762723761439683740597590340645515565int, 10044028241711351482658894125776685015380894104059299204898329201352987827366int);
    assert(mod_pow(3, 456005059829984900463466786359526564347839815777037992972688289471775546012nat, 21888242871839275222246405745257275088696311157297823662689037894645226208583nat) == 10044028241711351482658894125776685015380894104059299204898329201352987827366nat);
    lemma_fundamental_div_mod_converse(10044028241711351482658894125776685015380894104059299204898329201352987827366int * 10044028241711351482658894125776685015380894104059299204898329201352987827366int, m, 4608981356383224270899230672060365440134303317159653242081860586552630915886int, 734653495049373973806201247608587340334691075694454248418int);
    assert(mod_pow(3, 912010119659969800926933572719053128695679631554075985945376578943551092024nat, 21888242871839275222246405745257275088696311157297823662689037894645226208583nat) == 734653495049373973806201247608587340334691075694454248418nat);
    lemma_fundamental_div_mod_converse(734653495049373973806201247608587340334691075694454248418int * 734653495049373973806201247608587340334691075694454248418int, m, 24657792813631553170104612712095801043int, 734653495049373973806201247608587340324759752960068550655int);
    assert(mod_pow(3, 1824020239319939601853867145438106257391359263108151971890753157887102184048nat, 21888242871839275222246405745257275088696311157297823662689037894645226208583nat) == 734653495049373973806201247608587340324759752960068550655nat);
    lemma_fundamental_div_mod_converse(734653495049373973806201247608587340324759752960068550655int * 734653495049373973806201247608587340324759752960068550655int, m, 24657792813631553170104612712095801042int, 7296080957279758406680815086703051055759235804824020547238252878588340185539int);
    lemma_fundamental_div_mod_converse(7296080957279758406680815086703051055759235804824020547238252878588340185539int * 3, m, 0int, 21888242871839275220042445260109153167277707414472061641714758635765020556617int);
    assert(mod_pow(3, 3648040478639879203707734290876212514782718526216303943781506315774204368097nat, 21888242871839275222246405745257275088696311157297823662689037894645226208583nat) == 21888242871839275220042445260109153167277707414472061641714758635765020556617nat);
    lemma_fundamental_div_mod_converse(21888242871839275220042445260109153167277707414472061641714758635765020556617int * 21888242871839275220042445260109153167277707414472061641714758635765020556617int, m, 21888242871839275217838484774961031246081023806968983599271420891293677114031int, 21888242871839275220042445260109153167277707414472061641714758635765020556616int);
    assert(mod_pow(3, 7296080957279758407415468581752425029565437052432607887563012631548408736194nat, 21888242871839275222246405745257275088696311157297823662689037894645226208583nat) == 21888242871839275220042445260109153167277707414472061641714758635765020556616nat);
}

#[verifier::rlimit(100)]
pub proof fn lemma_pow_base_modulus_by_13()
    ensures
        mod_pow(3, 1683710990141482709403569672712098083745870089022909512514541376511171246814nat, 21888242871839275222246405745257275088696311157297823662689037894645226208583nat) == 19285204852924686474994479317461708819641446017783043034637969515423763351953nat,
{
    let m = 21888242871839275222246405745257275088696311157297823662689037894645226208583int;
    lemma_fundamental_div_mod_converse(1, m, 0, 1);
    assert(mod_pow(3, 0, 21888242871839275222246405745257275088696311157297823662689037894645226208583nat) == 1);
    lemma_fundamental_div_mod_converse(1int * 1int, m, 0int, 1int);
    lemma_fundamental_div_mod_converse(1int * 3, m, 0int, 3int);
    assert(mod_pow(3, 1, 21888242871839275222246405745257275088696311157297823662689037894645226208583nat) == 3);
    lemma_fundamental_div_mod_converse(3int * 3int, m, 0int, 9int);
    lemma_fundamental_div_mod_converse(9int * 3, m, 0int, 27int);
    assert(mod_pow(3, 3, 21888242871839275222246405745257275088696311157297823662689037894645226208583nat) == 27);
    lemma_fundamental_div_mod_converse(27int * 27int, m, 0int, 729int);
    lemma_fundamental_div_mod_converse(729int * 3, m, 0int, 2187int);
    assert(mod_pow(3, 7, 21888242871839275222246405745257275088696311157297823662689037894645226208583nat) == 2187);
    lemma_fundamental_div_mod_converse(2187int * 2187int, m, 0int, 4782969int);
    assert(mod_pow(3, 14, 21888242871839275222246405745257275088696311157297823662689037894645226208583nat) == 4782969);
    lemma_fundamental_div_mod_converse(4782969int * 4782969int, m, 0int, 22876792454961int);
    lemma_fundamental_div_mod_converse(22876792454961int * 3, m, 0int, 68630377364883int);
    assert(mod_pow(3, 29, 21888242871839275222246405745257275088696311157297823662689037894645226208583nat) == 68630377364883);
    lemma_fundamental_div_mod_converse(68630377364883int * 68630377364883int, m, 0int, 4710128697246244834921603689int);
    lemma_fundamental_div_mod_converse(4710128697246244834921603689int * 3, m, 0int, 14130386091738734504764811067int);
    assert(mod_pow(3, 59, 21888242871839275222246405745257275088696311157297823662689037894645226208583nat) == 14130386091738734504764811067nat);
    lemma_fundamental_div_mod_converse(14130386091738734504764811067int * 14130386091738734504764811067int, m, 0int, 199667811101603467823686647723289448859052847504205678489int);
    lemma_fundamental_div_mod_converse(199667811101603467823686647723289448859052847504205678489int * 3, m, 0int, 599003433304810403471059943169868346577158542512617035467int);
    assert(mod_pow(3, 119, 21888242871839275222246405745257275088696311157297823662689037894645226208583nat) == 599003433304810403471059943169868346577158542512617035467nat);
    lemma_fundamental_div_mod_converse(599003433304810403471059943169868346577158542512617035467int * 599003433304810403471059943169868346577158542512617035467int, m, 16392595568855726536506896126194730126int, 4214519493132209994242723283773245531541223044318397799712813004621666036631int);
    assert(mod_pow(3, 238, 21888242871839275222246405745257275088696311157297823662689037894645226208583nat) == 4214519493132209994242723283773245531541223044318397799712813004621666036631nat);
    lemma_fundamental_div_mod_converse(4214519493132209994242723283773245531541223044318397799712813004621666036631int * 4214519493132209994242723283773245531541223044318397799712813004621666036631int, m, 811493853663495086519008110858716874396506031284457473213567861135585474135int, 10744987031997961518911145331702100764179555741963918836236636080441372329456int);
    assert(mod_pow(3, 476, 21888242871839275222246405745257275088696311157297823662689037894645226208583nat) == 10744987031997961518911145331702100764179555741963918836236636080441372329456nat);
    lemma_fundamental_div_mod_converse(10744987031997961518911145331702100764179555741963918836236636080441372329456int * 10744987031997961518911145331702100764179555741963918836236636080441372329456int, m, 5274737994905237782588606255537817664192084690593893249760142704221674813559int, 6248705339117538472823665024591371858843263779877795413166245500398834679039int);
    assert(mod_pow(3, 952, 21888242871839275222246405745257275088696311157297823662689037894645226208583nat) == 6248705339117538472823665024591371858843263779877795413166245500398834679039nat);
    lemma_fundamental_div_mod_converse(6248705339117538472823665024591371858843263779877795413166245500398834679039int * 6248705339117538472823665024591371858843263779877795413166245500398834679039int, m, 1783894606969652943030315815290075591799479206528715303045938174621814232723int, 7424814014063895790876744904076641000272735794336060751286457577333643902012int);
    lemma_fundamental_div_mod_converse(7424814014063895790876744904076641000272735794336060751286457577333643902012int * 3, m, 1int, 386199170352412150383828966972647912121896225710358591170334837355705497453int);
    assert(mod_pow(3, 1905, 21888242871839275222246405745257275088696311157297823662689037894645226208583nat) == 386199170352412150383828966972647912121896225710358591170334837355705497453nat);
    lemma_fundamental_div_mod_converse(386199170352412150383828966972647912121896225710358591170334837355705497453int * 386199170352412150383828966972647912121896225710358591170334837355705497453int, m, 6814151325631665945719760645341874512039196058437396245941781089954045763int, 6405057909909930857614282057427485318077699742414325261709383900924024103380int);
    lemma_fundamental_div_mod_converse(6405057909909930857614282057427485318077699742414325261709383900924024103380int * 3, m, 0int, 19215173729729792572842846172282455954233099227242975785128151702772072310140int);
    assert(mod_pow(3, 3811, 21888242871839275222246405745257275088696311157297823662689037894645226208583nat) == 19215173729729792572842846172282455954233099227242975785128151702772072310140nat);
    lemma_fundamental_div_mod_converse(19215173729729792572842846172282455954233099227242975785128151702772072310140int * 19215173729729792572842846172282455954233099227242975785128151702772072310140int, m, 16868549185313021110330905102672870455329939003577201509860158069674373837971int, 2136811391323579325277753484039705260336411940934918907818114702321655314507int);
    lemma_fundamental_div_mod_converse(2136811391323579325277753484039705260336411940934918907818114702321655314507int * 3, m, 0int, 6410434173970737975833260452119115781009235822804756723454344106964965943521int);
    assert(mod_pow(3, 7623, 21888242871839275222246405745257275088696311157297823662689037894645226208583nat) == 6410434173970737975833260452119115781009235822804756723454344106964965943521nat);
    lemma_fundamental_div_mod_converse(6410434173970737975833260452119115781009235822804756723454344106964965943521int * 6410434173970737975833260452119115781009235822804756723454344106964965943521int, m, 1877431027215150109796348904953620487341242646623921989457265083704185586995int, 4465705367817771915239955119420230898612057023108618755121354252795599699356int);
    lemma_fundamental_div_mod_converse(4465705367817771915239955119420230898612057023108618755121354252795599699356int * 3, m, 0int, 13397116103453315745719865358260692695836171069325856265364062758386799098068int);
    assert(mod_pow(3, 15247, 21888242871839275222246405745257275088696311157297823662689037894645226208583nat) == 13397116103453315745719865358260692695836171069325856265364062758386799098068nat);
    lemma_fundamental_div_mod_converse(13397116103453315745719865358260692695836171069325856265364062758386799098068int * 13397116103453315745719865358260692695836171069325856265364062758386799098068int, m, 8199960176809120465778500684502127612779247809423532257543278556717363673730int, 10214375549579512143021714135200120311105158355637305633499431210238143708034int);
    assert(mod_pow(3, 30494, 21888242871839275222246405745257275088696311157297823662689037894645226208583nat) == 10214375549579512143021714135200120311105158355637305633499431210238143708034nat);
    lemma_fundamental_div_mod_converse(10214375549579512143021714135200120311105158355637305633499431210238143708034int * 10214375549579512143021714135200120311105158355637305633499431210238143708034int, m, 4766644288385520367560923882755422396125338189498582962055297833447855323036int, 17655101573938834436343545217976351334290622922618968917498089056950055327168int);
    assert(mod_pow(3, 60988, 21888242871839275222246405745257275088696311157297823662689037894645226208583nat) == 17655101573938834436343545217976351334290622922618968917498089056950055327168nat);
    lemma_fundamental_div_mod_converse(17655101573938834436343545217976351334290622922618968917498089056950055327168int * 17655101573938834436343545217976351334290622922618968917498089056950055327168int, m, 14240641124606867569367380442942945770958658165486655019737115059736961634311int, 4963705661293234258517901138220358974214359964199844421404777887677663408911int);
    lemma_fundamental_div_mod_converse(4963705661293234258517901138220358974214359964199844421404777887677663408911int * 3, m, 0int, 14891116983879702775553703414661076922643079892599533264214333663032990226733int);
    assert(mod_pow(3, 121977, 21888242871839275222246405745257275088696311157297823662689037894645226208583nat) == 14891116983879702775553703414661076922643079892599533264214333663032990226733nat);
    lemma_fundamental_div_mod_converse(14891116983879702775553703414661076922643079892599533264214333663032990226733int * 14891116983879702775553703414661076922643079892599533264214333663032990226733int, m, 10130797904882586429552785587286974175546287760538957734741337498302143873131int, 13643182581697543076176989616117803768852347667099464321771263862996652569916int);
    assert(mod_pow(3, 243954, 21888242871839275222246405745257275088696311157297823662689037894645226208583nat) == 13643182581697543076176989616117803768852347667099464321771263862996652569916nat);
    lemma_fundamental_div_mod_converse(13643182581697543076176989616117803768852347667099464321771263862996652569916int * 13643182581697543076176989616117803768852347667099464321771263862996652569916int, m, 8503945796261814773068892336901437228863755410195573148965352698127048007356int, 19015395998461858085250867428623157939402707372920647617235437011830293910508int);
    assert(mod_pow(3, 487908, 21888242871839275222246405745257275088696311157297823662689037894645226208583nat) == 19015395998461858085250867428623157939402707372920647617235437011830293910508nat);
    lemma_fundamental_div_mod_converse(19015395998461858085250867428623157939402707372920647617235437011830293910508int * 19015395998461858085250867428623157939402707372920647617235437011830293910508int, m, 16519612245509368806257959680914503959688102886742484049034175846654350652489int, 9088245598247204346251480841227108193470733565761214868950906029377050704977int);
    lemma_fundamental_div_mod_converse(9088245598247204346251480841227108193470733565761214868950906029377050704977int * 3, m, 1int, 5376493922902337816508036778424049491715889539985820944163680193485925906348int);
    assert(mod_pow(3, 975817, 21888242871839275222246405745257275088696311157297823662689037894645226208583nat) == 5376493922902337816508036778424049491715889539985820944163680193485925906348nat);
    lemma_fundamental_div_mod_converse(5376493922902337816508036778424049491715889539985820944163680193485925906348int * 5376493922902337816508036778424049491715889539985820944163680193485925906348int, m, 1320649038493455486914655344602536504691349111139291339874155612690868474762int, 15819878547527109160114615564185690762081154330455466879526021163919983414858int);
    assert(mod_pow(3, 1951634, 21888242871839275222246405745257275088696311157297823662689037894645226208583nat) == 15819878547527109160114615564185690762081154330455466879526021163919983414858nat);
    lemma_fundamental_div_mod_converse(15819878547527109160114615564185690762081154330455466879526021163919983414858int * 15819878547527109160114615564185690762081154330455466879526021163919983414858int, m, 11433926365121619264130932463490855836634357327002145972498401530339165683640int, 7059834645174078906311183544779955224288556988463912357921989035288504478044int);
    lemma_fundamental_div_mod_converse(7059834645174078906311183544779955224288556988463912357921989035288504478044int * 3, m, 0int, 21179503935522236718933550634339865672865670965391737073765967105865513434132int);
    assert(mod_pow(3, 3903269, 21888242871839275222246405745257275088696311157297823662689037894645226208583nat) == 21179503935522236718933550634339865672865670965391737073765967105865513434132nat);
    lemma_fundamental_div_mod_converse(21179503935522236718933550634339865672865670965391737073765967105865513434132int * 21179503935522236718933550634339865672865670965391737073765967105865513434132int, m, 20493713889291668543341633461638529414762607903225934080021417255375099034257int, 6127599056833515393876614386718252966243965512177825118699798243178958165593int);
    assert(mod_pow(3, 7806538, 21888242871839275222246405745257275088696311157297823662689037894645226208583nat) == 6127599056833515393876614386718252966243965512177825118699798243178958165593nat);
    lemma_fundamental_div_mod_converse(6127599056833515393876614386718252966243965512177825118699798243178958165593int * 6127599056833515393876614386718252966243965512177825118699798243178958165593int, m, 1715417286858342636186340178121918857431089869874035585604619033304733994369int, 19945190586576358238201658936118283099201557069870595145439192292348467572522int);
    lemma_fundamental_div_mod_converse(19945190586576358238201658936118283099201557069870595145439192292348467572522int * 3, m, 2int, 16059086016050524270112165317840299120212048895016138110939501087754950300400int);
    assert(mod_pow(3, 15613077, 21888242871839275222246405745257275088696311157297823662689037894645226208583nat) == 16059086016050524270112165317840299120212048895016138110939501087754950300400nat);
    lemma_fundamental_div_mod_converse(16059086016050524270112165317840299120212048895016138110939501087754950300400int * 16059086016050524270112165317840299120212048895016138110939501087754950300400int, m, 11782318260124394051864252490688239438783616696625140121103636293573685288262int, 15106100378940451476425778856804914293014133951002301679527939161914546607254int);
    lemma_fundamental_div_mod_converse(15106100378940451476425778856804914293014133951002301679527939161914546607254int * 3, m, 2int, 1541815393142803984784525079900192701649779538411257713205741696453187404596int);
    assert(mod_pow(3, 31226155, 21888242871839275222246405745257275088696311157297823662689037894645226208583nat) == 1541815393142803984784525079900192701649779538411257713205741696453187404596nat);
    lemma_fundamental_div_mod_converse(1541815393142803984784525079900192701649779538411257713205741696453187404596int * 1541815393142803984784525079900192701649779538411257713205741696453187404596int, m, 108606009191835272758549306261190025165777860861109556681718346721000663014int, 11433280285493525594144891443963486299363464405158201548184752900106144474054int);
    lemma_fundamental_div_mod_converse(11433280285493525594144891443963486299363464405158201548184752900106144474054int * 3, m, 1int, 12411597984641301560188268586633183809394082058176780981865220805673207213579int);
    assert(mod_pow(3, 62452311, 21888242871839275222246405745257275088696311157297823662689037894645226208583nat) == 12411597984641301560188268586633183809394082058176780981865220805673207213579nat);
    lemma_fundamental_div_mod_converse(12411597984641301560188268586633183809394082058176780981865220805673207213579int * 12411597984641301560188268586633183809394082058176780981865220805673207213579int, m, 7037922844439241250784319547854079294891788701370180477800744966299320872064int, 4735501636215015391723275381707228130521668644401003557011666779189400263929int);
    lemma_fundamental_div_mod_converse(4735501636215015391723275381707228130521668644401003557011666779189400263929int * 3, m, 0int, 14206504908645046175169826145121684391565005933203010671035000337568200791787int);
    assert(mod_pow(3, 124904623, 21888242871839275222246405745257275088696311157297823662689037894645226208583nat) == 14206504908645046175169826145121684391565005933203010671035000337568200791787nat);
    lemma_fundamental_div_mod_converse(14206504908645046175169826145121684391565005933203010671035000337568200791787int * 14206504908645046175169826145121684391565005933203010671035000337568200791787int, m, 9220693634527292616676744934942111695990516722810373130935872295864150488549int, 1714140041870146583158557763262223044510972434489008734108277062755299637302int);
    assert(mod_pow(3, 249809246, 21888242871839275222246405745257275088696311157297823662689037894645226208583nat) == 1714140041870146583158557763262223044510972434489008734108277062755299637302nat);
    lemma_fundamental_div_mod_converse(1714140041870146583158557763262223044510972434489008734108277062755299637302int * 1714140041870146583158557763262223044510972434489008734108277062755299637302int, m, 134239925075159023634912788920366666771654013774861259997350531275817840581int, 3009990682875065769807260268578514488203537571562513676033192031903801932481int);
    assert(mod_pow(3, 499618492, 21888242871839275222246405745257275088696311157297823662689037894645226208583nat) == 3009990682875065769807260268578514488203537571562513676033192031903801932481nat);
    lemma_fundamental_div_mod_converse(3009990682875065769807260268578514488203537571562513676033192031903801932481int * 3009990682875065769807260268578514488203537571562513676033192031903801932481int, m, 413922851827045114745325663156714642815229448451582527902186017884122158234int, 18790262640346464735255174966662342620669309273115731797139559789847067892939int);
    lemma_fundamental_div_mod_converse(18790262640346464735255174966662342620669309273115731797139559789847067892939int * 3, m, 2int, 12594302177360843761272713409472477684615305504751548066040603580250751261651int);
    assert(mod_pow(3, 999236985, 21888242871839275222246405745257275088696311157297823662689037894645226208583nat) == 12594302177360843761272713409472477684615305504751548066040603580250751261651nat);
    lemma_fundamental_div_mod_converse(12594302177360843761272713409472477684615305504751548066040603580250751261651int * 12594302177360843761272713409472477684615305504751548066040603580250751261651int, m, 7246650554062839912972504611742103336153463642074721558759656968508992026463int, 747265344124916745891873460886832724758046390140160408400675679868769513872int);
    lemma_fundamental_div_mod_converse(747265344124916745891873460886832724758046390140160408400675679868769513872int * 3, m, 0int, 2241796032374750237675620382660498174274139170420481225202027039606308541616int);
    assert(mod_pow(3, 1998473971, 21888242871839275222246405745257275088696311157297823662689037894645226208583nat) == 2241796032374750237675620382660498174274139170420481225202027039606308541616nat);
    lemma_fundamental_div_mod_converse(2241796032374750237675620382660498174274139170420481225202027039606308541616int * 2241796032374750237675620382660498174274139170420481225202027039606308541616int, m, 229604974697946846881753214937866081518205566852889408115834794191066347771int, 2907699905915729219279206174091831233100013601767698107492271348437540772963int);
    assert(mod_pow(3, 3996947942, 21888242871839275222246405745257275088696311157297823662689037894645226208583nat) == 2907699905915729219279206174091831233100013601767698107492271348437540772963nat);
    lemma_fundamental_div_mod_converse(2907699905915729219279206174091831233100013601767698107492271348437540772963int * 2907699905915729219279206174091831233100013601767698107492271348437540772963int, m, 386267586318676851970321583089991086537963747232023679750313984438833165917int, 17261628969674053684782061123164697774779800482830249698283212937959023333758int);
    lemma_fundamental_div_mod_converse(17261628969674053684782061123164697774779800482830249698283212937959023333758int * 3, m, 2int, 8008401165343610609853371878979543146946779133895101769471563024586617584108int);
    assert(mod_pow(3, 7993895885, 21888242871839275222246405745257275088696311157297823662689037894645226208583nat) == 8008401165343610609853371878979543146946779133895101769471563024586617584108nat);
    lemma_fundamental_div_mod_converse(8008401165343610609853371878979543146946779133895101769471563024586617584108int * 8008401165343610609853371878979543146946779133895101769471563024586617584108int, m, 2930088522893279702651805241379045920778441249152391403921033748298950688614int, 11125526902525288724843129374795064304563873999545699533844417801018206981702int);
    lemma_fundamental_div_mod_converse(11125526902525288724843129374795064304563873999545699533844417801018206981702int * 3, m, 1int, 11488337835736590952282982379127917824995310841339274938844215508409394736523int);
    assert(mod_pow(3, 15987791771, 21888242871839275222246405745257275088696311157297823662689037894645226208583nat) == 11488337835736590952282982379127917824995310841339274938844215508409394736523nat);
    lemma_fundamental_div_mod_converse(11488337835736590952282982379127917824995310841339274938844215508409394736523int * 11488337835736590952282982379127917824995310841339274938844215508409394736523int, m, 6029808194326126911752542739335800789333209529463337577565664878895700933960int, 9934030269081462120507497971310124352098201361095349009118801903473721950849int);
    assert(mod_pow(3, 31975583542, 21888242871839275222246405745257275088696311157297823662689037894645226208583nat) == 9934030269081462120507497971310124352098201361095349009118801903473721950849nat);
    lemma_fundamental_div_mod_converse(9934030269081462120507497971310124352098201361095349009118801903473721950849int * 9934030269081462120507497971310124352098201361095349009118801903473721950849int, m, 4508582893786858912846908161996851387922117904542162467524399197066761245651int, 9394083677091200329690200749936595280686653739570764979342305753509344198268int);
    assert(mod_pow(3, 63951167084, 21888242871839275222246405745257275088696311157297823662689037894645226208583nat) == 9394083677091200329690200749936595280686653739570764979342305753509344198268nat);
    lemma_fundamental_div_mod_converse(9394083677091200329690200749936595280686653739570764979342305753509344198268int * 9394083677091200329690200749936595280686653739570764979342305753509344198268int, m, 4031790429634233821321416425226034103459594573533175630331849785850154231087int, 1071501916529343874523599267403387921657250126477157661498277249211049380103int);
    lemma_fundamental_div_mod_converse(1071501916529343874523599267403387921657250126477157661498277249211049380103int * 3, m, 0int, 3214505749588031623570797802210163764971750379431472984494831747633148140309int);
    assert(mod_pow(3, 127902334169, 21888242871839275222246405745257275088696311157297823662689037894645226208583nat) == 3214505749588031623570797802210163764971750379431472984494831747633148140309nat);
    lemma_fundamental_div_mod_converse(3214505749588031623570797802210163764971750379431472984494831747633148140309int * 3214505749588031623570797802210163764971750379431472984494831747633148140309int, m, 472082079618583115555544509814811099723049684999297209033773595743539053966int, 5019866550657727963883582764726063580171610471484822948380109009872341225303int);
    assert(mod_pow(3, 255804668338, 21888242871839275222246405745257275088696311157297823662689037894645226208583nat) == 5019866550657727963883582764726063580171610471484822948380109009872341225303nat);
    lemma_fundamental_div_mod_converse(5019866550657727963883582764726063580171610471484822948380109009872341225303int * 5019866550657727963883582764726063580171610471484822948380109009872341225303int, m, 1151260077565780024406408742151050944678852218207459002646568941208773388642int, 17284899997358107348706415404963747506280169526927987841728640259636592327523int);
    lemma_fundamental_div_mod_converse(17284899997358107348706415404963747506280169526927987841728640259636592327523int * 3, m, 2int, 8078214248395771601626434724376692341447886266188316199807844989619324565403int);
    assert(mod_pow(3, 511609336677, 21888242871839275222246405745257275088696311157297823662689037894645226208583nat) == 8078214248395771601626434724376692341447886266188316199807844989619324565403nat);
    lemma_fundamental_div_mod_converse(8078214248395771601626434724376692341447886266188316199807844989619324565403int * 8078214248395771601626434724376692341447886266188316199807844989619324565403int, m, 2981397174048299982915852582829002350168776435886967709195658742984088926901int, 13175334034225218404523515231534137059226761503472504807071212152769558761126int);
    assert(mod_pow(3, 1023218673354, 21888242871839275222246405745257275088696311157297823662689037894645226208583nat) == 13175334034225218404523515231534137059226761503472504807071212152769558761126nat);
    lemma_fundamental_div_mod_converse(13175334034225218404523515231534137059226761503472504807071212152769558761126int * 13175334034225218404523515231534137059226761503472504807071212152769558761126int, m, 7930715495520568484575564992773823262769178425715341138564092737147402263079int, 5773407711820803915468585460356684825725827000901637143080212489766834980819int);
    lemma_fundamental_div_mod_converse(5773407711820803915468585460356684825725827000901637143080212489766834980819int * 3, m, 0int, 17320223135462411746405756381070054477177481002704911429240637469300504942457int);
    assert(mod_pow(3, 2046437346709, 21888242871839275222246405745257275088696311157297823662689037894645226208583nat) == 17320223135462411746405756381070054477177481002704911429240637469300504942457nat);
    lemma_fundamental_div_mod_converse(17320223135462411746405756381070054477177481002704911429240637469300504942457int * 17320223135462411746405756381070054477177481002704911429240637469300504942457int, m, 13705537316024816307617174336122148553470678263476942958223032904953025899657int, 18590278103788841893336063316897930879946446616369637818781357799996171040818int);
    lemma_fundamental_div_mod_converse(18590278103788841893336063316897930879946446616369637818781357799996171040818int * 3, m, 2int, 11994348567687975235515378460179242462446717534513266130965997610698060705288int);
    assert(mod_pow(3, 4092874693419, 21888242871839275222246405745257275088696311157297823662689037894645226208583nat) == 11994348567687975235515378460179242462446717534513266130965997610698060705288nat);
    lemma_fundamental_div_mod_converse(11994348567687975235515378460179242462446717534513266130965997610698060705288int * 11994348567687975235515378460179242462446717534513266130965997610698060705288int, m, 6572679150426002977953521779387299416691198483950744374542055966728753330445int, 18230445760004188577117014599539043064213478990719905314038284223918496953509int);
    assert(mod_pow(3, 8185749386838, 21888242871839275222246405745257275088696311157297823662689037894645226208583nat) == 18230445760004188577117014599539043064213478990719905314038284223918496953509nat);
    lemma_fundamental_div_mod_converse(18230445760004188577117014599539043064213478990719905314038284223918496953509int * 18230445760004188577117014599539043064213478990719905314038284223918496953509int, m, 15183911954670635643439840484241993628641207379832725787132663107705226706326int, 14949747945883411249461515579279395101886916946106695725649911880112345817023int);
    assert(mod_pow(3, 16371498773676, 21888242871839275222246405745257275088696311157297823662689037894645226208583nat) == 14949747945883411249461515579279395101886916946106695725649911880112345817023nat);
    lemma_fundamental_div_mod_converse(14949747945883411249461515579279395101886916946106695725649911880112345817023int * 14949747945883411249461515579279395101886916946106695725649911880112345817023int, m, 10210731165313724847884697398730003345667603691841247946333271640592678277999int, 5583568894100577890421722119675075230257986130864733229901910633769362717112int);
    lemma_fundamental_div_mod_converse(5583568894100577890421722119675075230257986130864733229901910633769362717112int * 3, m, 0int, 16750706682301733671265166359025225690773958392594199689705731901308088151336int);
    assert(mod_pow(3, 32742997547353, 21888242871839275222246405745257275088696311157297823662689037894645226208583nat) == 16750706682301733671265166359025225690773958392594199689705731901308088151336nat);
    lemma_fundamental_div_mod_converse(16750706682301733671265166359025225690773958392594199689705731901308088151336int * 16750706682301733671265166359025225690773958392594199689705731901308088151336int, m, 12819036045945072163693163613102870382819472835143545466196114426003875040680int, 9430954187959913273867886638227622825607813004357777292557124381572748428456int);
    lemma_fundamental_div_mod_converse(9430954187959913273867886638227622825607813004357777292557124381572748428456int * 3, m, 1int, 6404619692040464599357254169425593388127127855775508214982335250073019076785int);
    assert(mod_pow(3, 65485995094707, 21888242871839275222246405745257275088696311157297823662689037894645226208583nat) == 6404619692040464599357254169425593388127127855775508214982335250073019076785nat);
    lemma_fundamental_div_mod_converse(6404619692040464599357254169425593388127127855775508214982335250073019076785int * 6404619692040464599357254169425593388127127855775508214982335250073019076785int, m, 1874026784143849577718271297605271091158847476126796318067706942445131618125int, 4852524965864069779782504417974957641906435221292884463774229855324172569350int);
    assert(mod_pow(3, 130971990189414, 21888242871839275222246405745257275088696311157297823662689037894645226208583nat) == 4852524965864069779782504417974957641906435221292884463774229855324172569350nat);
    lemma_fundamental_div_mod_converse(4852524965864069779782504417974957641906435221292884463774229855324172569350int * 4852524965864069779782504417974957641906435221292884463774229855324172569350int, m, 1075782952620144727600540153615395599292122926306649352366853188506787110124int, 10305556969412034843024613647303873929690557636573576633737866134936744428208int);
    assert(mod_pow(3, 261943980378828, 21888242871839275222246405745257275088696311157297823662689037894645226208583nat) == 10305556969412034843024613647303873929690557636573576633737866134936744428208nat);
    lemma_fundamental_div_mod_converse(10305556969412034843024613647303873929690557636573576633737866134936744428208int * 10305556969412034843024613647303873929690557636573576633737866134936744428208int, m, 4852125639853728907046186216658648020046369700524374260795928706673361446897int, 4841591948697523625143403810453606065372795002889534407319687619418465974313int);
    lemma_fundamental_div_mod_converse(4841591948697523625143403810453606065372795002889534407319687619418465974313int * 3, m, 0int, 14524775846092570875430211431360818196118385008668603221959062858255397922939int);
    assert(mod_pow(3, 523887960757657, 21888242871839275222246405745257275088696311157297823662689037894645226208583nat) == 14524775846092570875430211431360818196118385008668603221959062858255397922939nat);
    lemma_fundamental_div_mod_converse(14524775846092570875430211431360818196118385008668603221959062858255397922939int * 14524775846092570875430211431360818196118385008668603221959062858255397922939int, m, 9638467309345346461083073251435038869801356376838124214401640244086897474801int, 3545230531921588179971070615711448663106691696419789944171646818269369980738int);
    lemma_fundamental_div_mod_converse(3545230531921588179971070615711448663106691696419789944171646818269369980738int * 3, m, 0int, 10635691595764764539913211847134345989320075089259369832514940454808109942214int);
    assert(mod_pow(3, 1047775921515315, 21888242871839275222246405745257275088696311157297823662689037894645226208583nat) == 10635691595764764539913211847134345989320075089259369832514940454808109942214nat);
    lemma_fundamental_div_mod_converse(10635691595764764539913211847134345989320075089259369832514940454808109942214int * 10635691595764764539913211847134345989320075089259369832514940454808109942214int, m, 5167976999458244386702566216428521481138065203929965691726794719763451379947int, 5062803999532925170976803765914150222180257765088543572033104901452213736695int);
    lemma_fundamental_div_mod_converse(5062803999532925170976803765914150222180257765088543572033104901452213736695int * 3, m, 0int, 15188411998598775512930411297742450666540773295265630716099314704356641210085int);
    assert(mod_pow(3, 2095551843030631, 21888242871839275222246405745257275088696311157297823662689037894645226208583nat) == 15188411998598775512930411297742450666540773295265630716099314704356641210085nat);
    lemma_fundamental_div_mod_converse(15188411998598775512930411297742450666540773295265630716099314704356641210085int * 15188411998598775512930411297742450666540773295265630716099314704356641210085int, m, 10539350298235907892758121892116454891756604855931761355131180635698845391404int, 18283820167230042569128206057506653102467344667690847925688516748587526486693int);
    assert(mod_pow(3, 4191103686061262, 21888242871839275222246405745257275088696311157297823662689037894645226208583nat) == 18283820167230042569128206057506653102467344667690847925688516748587526486693nat);
    lemma_fundamental_div_mod_converse(18283820167230042569128206057506653102467344667690847925688516748587526486693int * 18283820167230042569128206057506653102467344667690847925688516748587526486693int, m, 15272951870326028590562232101775999795325596331691806079713637158669208015586int, 14207755584908609843398565874899565137556189381888176470272147645911955101611int);
    lemma_fundamental_div_mod_converse(14207755584908609843398565874899565137556189381888176470272147645911955101611int * 3, m, 1int, 20735023882886554307949291879441420323972256988366705748127405043090639096250int);
    assert(mod_pow(3, 8382207372122525, 21888242871839275222246405745257275088696311157297823662689037894645226208583nat) == 20735023882886554307949291879441420323972256988366705748127405043090639096250nat);
    lemma_fundamental_div_mod_converse(20735023882886554307949291879441420323972256988366705748127405043090639096250int * 20735023882886554307949291879441420323972256988366705748127405043090639096250int, m, 19642564181203628878636911994049096703756263300708622893144721627018112495985int, 6704720377705472800580672459440647564494715998816286440192586025640404023245int);
    lemma_fundamental_div_mod_converse(6704720377705472800580672459440647564494715998816286440192586025640404023245int * 3, m, 0int, 20114161133116418401742017378321942693484147996448859320577758076921212069735int);
    assert(mod_pow(3, 16764414744245051, 21888242871839275222246405745257275088696311157297823662689037894645226208583nat) == 20114161133116418401742017378321942693484147996448859320577758076921212069735nat);
    lemma_fundamental_div_mod_converse(20114161133116418401742017378321942693484147996448859320577758076921212069735int * 20114161133116418401742017378321942693484147996448859320577758076921212069735int, m, 18483871933342369433139047408251534376253552797966470671880479903010549377129int, 15724940316682500062034752226372207553817159525588855500772268762585619272018int);
    assert(mod_pow(3, 33528829488490102, 21888242871839275222246405745257275088696311157297823662689037894645226208583nat) == 15724940316682500062034752226372207553817159525588855500772268762585619272018nat);
    lemma_fundamental_div_mod_converse(15724940316682500062034752226372207553817159525588855500772268762585619272018int * 15724940316682500062034752226372207553817159525588855500772268762585619272018int, m, 11297103628238763349952806454834666222175261482084830795180121738963715146892int, 9373102969119620229649761337631620633756252786544016818015062105758201618288int);
    lemma_fundamental_div_mod_converse(9373102969119620229649761337631620633756252786544016818015062105758201618288int * 3, m, 1int, 6231066035519585466702878267637586812572447202334226791356148422629378646281int);
    assert(mod_pow(3, 67057658976980205, 21888242871839275222246405745257275088696311157297823662689037894645226208583nat) == 6231066035519585466702878267637586812572447202334226791356148422629378646281nat);
    lemma_fundamental_div_mod_converse(6231066035519585466702878267637586812572447202334226791356148422629378646281int * 6231066035519585466702878267637586812572447202334226791356148422629378646281int, m, 1773837405146774522490187632746408562579204330706387521701291981900514322849int, 13088837731338799326280798876519827250930372303417717460028362322956238317994int);
    assert(mod_pow(3, 134115317953960410, 21888242871839275222246405745257275088696311157297823662689037894645226208583nat) == 13088837731338799326280798876519827250930372303417717460028362322956238317994nat);
    lemma_fundamental_div_mod_converse(13088837731338799326280798876519827250930372303417717460028362322956238317994int * 13088837731338799326280798876519827250930372303417717460028362322956238317994int, m, 7826926727760780496791391945595737750639668973784753290423585398972365843728int, 12972440622425450087722415745532206343053441993820607405828938365766953866612int);
    assert(mod_pow(3, 268230635907920820, 21888242871839275222246405745257275088696311157297823662689037894645226208583nat) == 12972440622425450087722415745532206343053441993820607405828938365766953866612nat);
    lemma_fundamental_div_mod_converse(12972440622425450087722415745532206343053441993820607405828938365766953866612int * 12972440622425450087722415745532206343053441993820607405828938365766953866612int, m, 7688338286800681354749038982036631865212857942662821575409546103989403584804int, 9358113297611912949476181034434754235819737849236182968356483664583855185812int);
    assert(mod_pow(3, 536461271815841640, 21888242871839275222246405745257275088696311157297823662689037894645226208583nat) == 9358113297611912949476181034434754235819737849236182968356483664583855185812nat);
    lemma_fundamental_div_mod_converse(9358113297611912949476181034434754235819737849236182968356483664583855185812int * 9358113297611912949476181034434754235819737849236182968356483664583855185812int, m, 4000973719256890710884426012202909183508086308784608690090426796710895438743int, 18189540981045195933606585703350908593431593249975285842452542386470828768175int);
    lemma_fundamental_div_mod_converse(18189540981045195933606585703350908593431593249975285842452542386470828768175int * 3, m, 2int, 10792137199457037356326945619538175602902157435330210201979551370122033887359int);
    assert(mod_pow(3, 1072922543631683281, 21888242871839275222246405745257275088696311157297823662689037894645226208583nat) == 10792137199457037356326945619538175602902157435330210201979551370122033887359nat);
    lemma_fundamental_div_mod_converse(10792137199457037356326945619538175602902157435330210201979551370122033887359int * 10792137199457037356326945619538175602902157435330210201979551370122033887359int, m, 5321131806416097183248122154035199733172452460445898659414188517521571494216int, 20717484195913780669830232768443021013033974232881383497677673090989305938953int);
    lemma_fundamental_div_mod_converse(20717484195913780669830232768443021013033974232881383497677673090989305938953int * 3, m, 2int, 18375966844062791564997886814814512861709300384048503167654943483677465399693int);
    assert(mod_pow(3, 2145845087263366563, 21888242871839275222246405745257275088696311157297823662689037894645226208583nat) == 18375966844062791564997886814814512861709300384048503167654943483677465399693nat);
    lemma_fundamental_div_mod_converse(18375966844062791564997886814814512861709300384048503167654943483677465399693int * 18375966844062791564997886814814512861709300384048503167654943483677465399693int, m, 15427284841056773645635206586073078220566308677103593496441327734021974644471int, 8767936820093098905139925185926833453520377789147813611578527686213530799656int);
    lemma_fundamental_div_mod_converse(8767936820093098905139925185926833453520377789147813611578527686213530799656int * 3, m, 1int, 4415567588440021493173369812523225271864822210145617172046545163995366190385int);
    assert(mod_pow(3, 4291690174526733127, 21888242871839275222246405745257275088696311157297823662689037894645226208583nat) == 4415567588440021493173369812523225271864822210145617172046545163995366190385nat);
    lemma_fundamental_div_mod_converse(4415567588440021493173369812523225271864822210145617172046545163995366190385int * 4415567588440021493173369812523225271864822210145617172046545163995366190385int, m, 890763011094260061796990475855461531938603206326867367948684331649730826667int, 16874763002868863850702998647159976361975224076894841142109678310701305765364int);
    assert(mod_pow(3, 8583380349053466254, 21888242871839275222246405745257275088696311157297823662689037894645226208583nat) == 16874763002868863850702998647159976361975224076894841142109678310701305765364nat);
    lemma_fundamental_div_mod_converse(16874763002868863850702998647159976361975224076894841142109678310701305765364int * 16874763002868863850702998647159976361975224076894841142109678310701305765364int, m, 13009615621971738997957718136290193283921249509683474837376885552712415788158int, 4969360196734911326246908483766220548115782153912655006510996216929772692382int);
    assert(mod_pow(3, 17166760698106932508nat, 21888242871839275222246405745257275088696311157297823662689037894645226208583nat) == 4969360196734911326246908483766220548115782153912655006510996216929772692382nat);
    lemma_fundamental_div_mod_converse(4969360196734911326246908483766220548115782153912655006510996216929772692382int * 4969360196734911326246908483766220548115782153912655006510996216929772692382int, m, 1128210286658709181953038625372761608582083513975414063860672309831307735570int, 3911525196561993914371995825200717999023752258577371786255856408722972436614int);
    assert(mod_pow(3, 34333521396213865016nat, 21888242871839275222246405745257275088696311157297823662689037894645226208583nat) == 3911525196561993914371995825200717999023752258577371786255856408722972436614nat);
    lemma_fundamental_div_mod_converse(3911525196561993914371995825200717999023752258577371786255856408722972436614int * 3911525196561993914371995825200717999023752258577371786255856408722972436614int, m, 699006743159994886586707436324977521523999563547375160013408661113032872276int, 791340726855063804664205387394266017901407330545592330858053396694273840088int);
    assert(mod_pow(3, 68667042792427730032nat, 21888242871839275222246405745257275088696311157297823662689037894645226208583nat) == 791340726855063804664205387394266017901407330545592330858053396694273840088nat);
    lemma_fundamental_div_mod_converse(791340726855063804664205387394266017901407330545592330858053396694273840088int * 791340726855063804664205387394266017901407330545592330858053396694273840088int, m, 28609886579117588398427347201869300123411627634118401959980642404389032204int, 12365258415657053546142739804847900686449178376831886895755852023002187640812int);
    lemma_fundamental_div_mod_converse(12365258415657053546142739804847900686449178376831886895755852023002187640812int * 3, m, 1int, 15207532375131885416181813669286426970651223973197837024578518174361336713853int);
    assert(mod_pow(3, 137334085584855460065nat, 21888242871839275222246405745257275088696311157297823662689037894645226208583nat) == 15207532375131885416181813669286426970651223973197837024578518174361336713853nat);
    lemma_fundamental_div_mod_converse(15207532375131885416181813669286426970651223973197837024578518174361336713853int * 15207532375131885416181813669286426970651223973197837024578518174361336713853int, m, 10565902539313830327419865941670828441729829622448175510468833534681972816427int, 19802742629528183326180741829316083043192018254466683629835907862221331312668int);
    assert(mod_pow(3, 274668171169710920130nat, 21888242871839275222246405745257275088696311157297823662689037894645226208583nat) == 19802742629528183326180741829316083043192018254466683629835907862221331312668nat);
    lemma_fundamental_div_mod_converse(19802742629528183326180741829316083043192018254466683629835907862221331312668int * 19802742629528183326180741829316083043192018254466683629835907862221331312668int, m, 17915947750920603239748420605167528591573684035159121110148145751553920221858int, 16039446455052616415887908435347471457074693579139607293046229107448433471010int);
    lemma_fundamental_div_mod_converse(16039446455052616415887908435347471457074693579139607293046229107448433471010int * 3, m, 2int, 4341853621479298803170913815527864193831458422823174553760611533054847995864int);
    assert(mod_pow(3, 549336342339421840261nat, 21888242871839275222246405745257275088696311157297823662689037894645226208583nat) == 4341853621479298803170913815527864193831458422823174553760611533054847995864nat);
    lemma_fundamental_div_mod_converse(4341853621479298803170913815527864193831458422823174553760611533054847995864int * 4341853621479298803170913815527864193831458422823174553760611533054847995864int, m, 861270271018734774312412346473444808952272518602137128709333273977514633968int, 6363735440142571218970583946451700696906773621926196845427975013725696159152int);
    assert(mod_pow(3, 1098672684678843680522nat, 21888242871839275222246405745257275088696311157297823662689037894645226208583nat) == 6363735440142571218970583946451700696906773621926196845427975013725696159152nat);
    lemma_fundamental_div_mod_converse(6363735440142571218970583946451700696906773621926196845427975013725696159152int * 6363735440142571218970583946451700696906773621926196845427975013725696159152int, m, 1850177238494959165548882638158199707097490104705053155320035565726314023794int, 16896547438939627499028491012244539236256686139840593684900705315699444335202int);
    assert(mod_pow(3, 2197345369357687361044nat, 21888242871839275222246405745257275088696311157297823662689037894645226208583nat) == 16896547438939627499028491012244539236256686139840593684900705315699444335202nat);
    lemma_fundamental_div_mod_converse(16896547438939627499028491012244539236256686139840593684900705315699444335202int * 16896547438939627499028491012244539236256686139840593684900705315699444335202int, m, 13043226769182281156447771337056241156896273706202829379014111998315432779536int, 15729940735811242689327965781873675626499414769828492283740262885357146423316int);
    assert(mod_pow(3, 4394690738715374722088nat, 21888242871839275222246405745257275088696311157297823662689037894645226208583nat) == 15729940735811242689327965781873675626499414769828492283740262885357146423316nat);
    lemma_fundamental_div_mod_converse(15729940735811242689327965781873675626499414769828492283740262885357146423316int * 15729940735811242689327965781873675626499414769828492283740262885357146423316int, m, 11304289567732772483088338973365053416594154442355249920810465770904685236146int, 5691152846676837429532629167709722871820334640467152960159575693911861394738int);
    lemma_fundamental_div_mod_converse(5691152846676837429532629167709722871820334640467152960159575693911861394738int * 3, m, 0int, 17073458540030512288597887503129168615461003921401458880478727081735584184214int);
    assert(mod_pow(3, 8789381477430749444177nat, 21888242871839275222246405745257275088696311157297823662689037894645226208583nat) == 17073458540030512288597887503129168615461003921401458880478727081735584184214nat);
    lemma_fundamental_div_mod_converse(17073458540030512288597887503129168615461003921401458880478727081735584184214int * 17073458540030512288597887503129168615461003921401458880478727081735584184214int, m, 13317788377301834736594440648941440396422414029933681031665646693330621378498int, 20912857550018545726764797728179421062319059874754139563986542978026347549462int);
    lemma_fundamental_div_mod_converse(20912857550018545726764797728179421062319059874754139563986542978026347549462int * 3, m, 2int, 18962086906377086735801581694023713009564557309666771366581553144788590231220int);
    assert(mod_pow(3, 17578762954861498888355nat, 21888242871839275222246405745257275088696311157297823662689037894645226208583nat) == 18962086906377086735801581694023713009564557309666771366581553144788590231220nat);
    lemma_fundamental_div_mod_converse(18962086906377086735801581694023713009564557309666771366581553144788590231220int * 18962086906377086735801581694023713009564557309666771366581553144788590231220int, m, 16427117606027521448147518088517846468165918793143608594368988837097748653709int, 2905868418780944636428656449549640131369169819966788726215234091862392104053int);
    lemma_fundamental_div_mod_converse(2905868418780944636428656449549640131369169819966788726215234091862392104053int * 3, m, 0int, 8717605256342833909285969348648920394107509459900366178645702275587176312159int);
    assert(mod_pow(3, 35157525909722997776711nat, 21888242871839275222246405745257275088696311157297823662689037894645226208583nat) == 8717605256342833909285969348648920394107509459900366178645702275587176312159nat);
    lemma_fundamental_div_mod_converse(8717605256342833909285969348648920394107509459900366178645702275587176312159int * 8717605256342833909285969348648920394107509459900366178645702275587176312159int, m, 3472030251601013402978136102303794079347011196513913387445145616120991576429int, 18114582858855156054501933041472261275184414281069536332659786226879470951174int);
    assert(mod_pow(3, 70315051819445995553422nat, 21888242871839275222246405745257275088696311157297823662689037894645226208583nat) == 18114582858855156054501933041472261275184414281069536332659786226879470951174nat);
    lemma_fundamental_div_mod_converse(18114582858855156054501933041472261275184414281069536332659786226879470951174int * 18114582858855156054501933041472261275184414281069536332659786226879470951174int, m, 14991523717625648790088300670154178237164142558039357000953745718387102225314int, 13096783865170759657498607224327294522525097419317385024664965123505865308214int);
    lemma_fundamental_div_mod_converse(13096783865170759657498607224327294522525097419317385024664965123505865308214int * 3, m, 1int, 17402108723673003750249415927724608478878981100654331411305857475872369716059int);
    assert(mod_pow(3, 140630103638891991106845nat, 21888242871839275222246405745257275088696311157297823662689037894645226208583nat) == 17402108723673003750249415927724608478878981100654331411305857475872369716059nat);
    lemma_fundamental_div_mod_converse(17402108723673003750249415927724608478878981100654331411305857475872369716059int * 17402108723673003750249415927724608478878981100654331411305857475872369716059int, m, 13835436211289119553830696209134040506951917391947168413572955892679872680597int, 13512500353505235610575917341475842121429238654689260160760267772097023527430int);
    lemma_fundamental_div_mod_converse(13512500353505235610575917341475842121429238654689260160760267772097023527430int * 3, m, 1int, 18649258188676431609481346279170251275591404806769956819591765421645844373707int);
    assert(mod_pow(3, 281260207277783982213691nat, 21888242871839275222246405745257275088696311157297823662689037894645226208583nat) == 18649258188676431609481346279170251275591404806769956819591765421645844373707nat);
    lemma_fundamental_div_mod_converse(18649258188676431609481346279170251275591404806769956819591765421645844373707int * 18649258188676431609481346279170251275591404806769956819591765421645844373707int, m, 15889572910184436429462994319971403342156531597338384213253587476952150464222int, 16209958887217303340900145954789623503278905076228990817909157336482622104423int);
    assert(mod_pow(3, 562520414555567964427382nat, 21888242871839275222246405745257275088696311157297823662689037894645226208583nat) == 16209958887217303340900145954789623503278905076228990817909157336482622104423nat);
    lemma_fundamental_div_mod_converse(16209958887217303340900145954789623503278905076228990817909157336482622104423int * 16209958887217303340900145954789623503278905076228990817909157336482622104423int, m, 12004744677944776742031244097572115332535365718446108615271113787089033299831int, 20936242426668479104401880312174041246362905969942656902322641711095531513456int);
    lemma_fundamental_div_mod_converse(20936242426668479104401880312174041246362905969942656902322641711095531513456int * 3, m, 2int, 19032241536326886868712829446007573561696095595232323381589849343996142123202int);
    assert(mod_pow(3, 1125040829111135928854765nat, 21888242871839275222246405745257275088696311157297823662689037894645226208583nat) == 19032241536326886868712829446007573561696095595232323381589849343996142123202nat);
    lemma_fundamental_div_mod_converse(19032241536326886868712829446007573561696095595232323381589849343996142123202int * 19032241536326886868712829446007573561696095595232323381589849343996142123202int, m, 16548894309059192548993235484855409615815504920281757648080161172136904342208int, 4462433405221055731143296323861672805343641234396220439029003299971127961540int);
    lemma_fundamental_div_mod_converse(4462433405221055731143296323861672805343641234396220439029003299971127961540int * 3, m, 0int, 13387300215663167193429888971585018416030923703188661317087009899913383884620int);
    assert(mod_pow(3, 2250081658222271857709531nat, 21888242871839275222246405745257275088696311157297823662689037894645226208583nat) == 13387300215663167193429888971585018416030923703188661317087009899913383884620nat);
    lemma_fundamental_div_mod_converse(13387300215663167193429888971585018416030923703188661317087009899913383884620int * 13387300215663167193429888971585018416030923703188661317087009899913383884620int, m, 8187948576487775051357875176524123403965638027895453270561183010135900973566int, 1653078092121373054835691617486353058452132201054988340648872692792787227422int);
    assert(mod_pow(3, 4500163316444543715419062nat, 21888242871839275222246405745257275088696311157297823662689037894645226208583nat) == 1653078092121373054835691617486353058452132201054988340648872692792787227422nat);
    lemma_fundamental_div_mod_converse(1653078092121373054835691617486353058452132201054988340648872692792787227422int * 1653078092121373054835691617486353058452132201054988340648872692792787227422int, m, 124846347632929565809478602725038352338623310329035331712970832851040886137int, 18619039481201441264356274061237818619267718132275833600097097166168833652213int);
    lemma_fundamental_div_mod_converse(18619039481201441264356274061237818619267718132275833600097097166168833652213int * 3, m, 2int, 12080632699925773348576010693198905680410532082231853474913215709216048539473int);
    assert(mod_pow(3, 9000326632889087430838125nat, 21888242871839275222246405745257275088696311157297823662689037894645226208583nat) == 12080632699925773348576010693198905680410532082231853474913215709216048539473nat);
    lemma_fundamental_div_mod_converse(12080632699925773348576010693198905680410532082231853474913215709216048539473int * 12080632699925773348576010693198905680410532082231853474913215709216048539473int, m, 6667583473238953470211068520989948476601366589337336574475365545882894442730int, 17430971178303447971263341424749624356043170319128121551186416905737911166139int);
    assert(mod_pow(3, 18000653265778174861676250nat, 21888242871839275222246405745257275088696311157297823662689037894645226208583nat) == 17430971178303447971263341424749624356043170319128121551186416905737911166139nat);
    lemma_fundamental_div_mod_converse(17430971178303447971263341424749624356043170319128121551186416905737911166139int * 17430971178303447971263341424749624356043170319128121551186416905737911166139int, m, 13881368093267773439206661378240518979566600623350486641141290188034859168542int, 17019006795091170751074325131279084355964849877349807314177185397908416171335int);
    assert(mod_pow(3, 36001306531556349723352500nat, 21888242871839275222246405745257275088696311157297823662689037894645226208583nat) == 17019006795091170751074325131279084355964849877349807314177185397908416171335nat);
    lemma_fundamental_div_mod_converse(17019006795091170751074325131279084355964849877349807314177185397908416171335int * 17019006795091170751074325131279084355964849877349807314177185397908416171335int, m, 13232975985660760280209699310304556348250858484429991423693532824489129912256int, 8391406136483138366076647850256362616560321735017217536384434287465731588977int);
    lemma_fundamental_div_mod_converse(8391406136483138366076647850256362616560321735017217536384434287465731588977int * 3, m, 1int, 3285975537610139875983537805511812760984654047753828946464264967751968558348int);
    assert(mod_pow(3, 72002613063112699446705001nat, 21888242871839275222246405745257275088696311157297823662689037894645226208583nat) == 3285975537610139875983537805511812760984654047753828946464264967751968558348nat);
    lemma_fundamental_div_mod_converse(3285975537610139875983537805511812760984654047753828946464264967751968558348int * 3285975537610139875983537805511812760984654047753828946464264967751968558348int, m, 493307539440004370181459300939077493478687885706380536806554566578665060951int, 6769244530365569494941805242356771306885158205117420846484721287105146146671int);
    assert(mod_pow(3, 144005226126225398893410002nat, 21888242871839275222246405745257275088696311157297823662689037894645226208583nat) == 6769244530365569494941805242356771306885158205117420846484721287105146146671nat);
    lemma_fundamental_div_mod_converse(6769244530365569494941805242356771306885158205117420846484721287105146146671int * 6769244530365569494941805242356771306885158205117420846484721287105146146671int, m, 2093483327107914510103269987519235019147921985866369119566402125759473157306int, 7329166332397449593272439424755709182335136936140373472178105065648718024843int);
    lemma_fundamental_div_mod_converse(7329166332397449593272439424755709182335136936140373472178105065648718024843int * 3, m, 1int, 99256125353073557570912529009852458309099651123296753845277302300927865946int);
    assert(mod_pow(3, 288010452252450797786820005nat, 21888242871839275222246405745257275088696311157297823662689037894645226208583nat) == 99256125353073557570912529009852458309099651123296753845277302300927865946nat);
    lemma_fundamental_div_mod_converse(99256125353073557570912529009852458309099651123296753845277302300927865946int * 99256125353073557570912529009852458309099651123296753845277302300927865946int, m, 450094531470136402692688631786027345126600214544864793460187423983153379int, 1268944359306097092826023151549687063239068128111572914584324482017011222959int);
    lemma_fundamental_div_mod_converse(1268944359306097092826023151549687063239068128111572914584324482017011222959int * 3, m, 0int, 3806833077918291278478069454649061189717204384334718743752973446051033668877int);
    assert(mod_pow(3, 576020904504901595573640011nat, 21888242871839275222246405745257275088696311157297823662689037894645226208583nat) == 3806833077918291278478069454649061189717204384334718743752973446051033668877nat);
    lemma_fundamental_div_mod_converse(3806833077918291278478069454649061189717204384334718743752973446051033668877int * 3806833077918291278478069454649061189717204384334718743752973446051033668877int, m, 662089605272873425057158349604306071031241830943431992317074960780764602698int, 10046292544678877262155703049654590060780550701687894511326911556404405884195int);
    lemma_fundamental_div_mod_converse(10046292544678877262155703049654590060780550701687894511326911556404405884195int * 3, m, 1int, 8250634762197356564220703403706495093645340947765859871291696774567991444002int);
    assert(mod_pow(3, 1152041809009803191147280023nat, 21888242871839275222246405745257275088696311157297823662689037894645226208583nat) == 8250634762197356564220703403706495093645340947765859871291696774567991444002nat);
    lemma_fundamental_div_mod_converse(8250634762197356564220703403706495093645340947765859871291696774567991444002int * 8250634762197356564220703403706495093645340947765859871291696774567991444002int, m, 3110024608999563759805171045924996309867417005141640263228661684341199599802int, 10543625711027337808857249579015083273603759588673953986696524645195724275438int);
    lemma_fundamental_div_mod_converse(10543625711027337808857249579015083273603759588673953986696524645195724275438int * 3, m, 1int, 9742634261242738204325342991787974732114967608724038297400536040941946617731int);
    assert(mod_pow(3, 2304083618019606382294560047nat, 21888242871839275222246405745257275088696311157297823662689037894645226208583nat) == 9742634261242738204325342991787974732114967608724038297400536040941946617731nat);
    lemma_fundamental_div_mod_converse(9742634261242738204325342991787974732114967608724038297400536040941946617731int * 9742634261242738204325342991787974732114967608724038297400536040941946617731int, m, 4336525453601418823960462879650145289056855681572227679285299739054018555580int, 9353847522162053781250340853016151898742653493355755885691684967857185045221int);
    lemma_fundamental_div_mod_converse(9353847522162053781250340853016151898742653493355755885691684967857185045221int * 3, m, 1int, 6173299694646886121504616813791180607531649322769443994386017008926328927080int);
    assert(mod_pow(3, 4608167236039212764589120095nat, 21888242871839275222246405745257275088696311157297823662689037894645226208583nat) == 6173299694646886121504616813791180607531649322769443994386017008926328927080nat);
    lemma_fundamental_div_mod_converse(6173299694646886121504616813791180607531649322769443994386017008926328927080int * 6173299694646886121504616813791180607531649322769443994386017008926328927080int, m, 1741100432002149770749002575049420226717986892984067349127832654876729305350int, 3809841039546405010362141620151768021327415263951004035970706598596159507350int);
    lemma_fundamental_div_mod_converse(3809841039546405010362141620151768021327415263951004035970706598596159507350int * 3, m, 0int, 11429523118639215031086424860455304063982245791853012107912119795788478522050int);
    assert(mod_pow(3, 9216334472078425529178240191nat, 21888242871839275222246405745257275088696311157297823662689037894645226208583nat) == 11429523118639215031086424860455304063982245791853012107912119795788478522050nat);
    lemma_fundamental_div_mod_converse(11429523118639215031086424860455304063982245791853012107912119795788478522050int * 11429523118639215031086424860455304063982245791853012107912119795788478522050int, m, 5968226846001324368353159998507649138075123014729569134598181882484646404826int, 7415242817474131621649504999054035162736454748893335981407807294890602380942int);
    assert(mod_pow(3, 18432668944156851058356480382nat, 21888242871839275222246405745257275088696311157297823662689037894645226208583nat) == 7415242817474131621649504999054035162736454748893335981407807294890602380942nat);
    lemma_fundamental_div_mod_converse(7415242817474131621649504999054035162736454748893335981407807294890602380942int * 7415242817474131621649504999054035162736454748893335981407807294890602380942int, m, 2512116955392738806049439831123294656417513988851751666519861540392196842380int, 4373266307999640852008674729620060867147370424759597160660555668487430659824int);
    assert(mod_pow(3, 36865337888313702116712960764nat, 21888242871839275222246405745257275088696311157297823662689037894645226208583nat) == 4373266307999640852008674729620060867147370424759597160660555668487430659824nat);
    lemma_fundamental_div_mod_converse(4373266307999640852008674729620060867147370424759597160660555668487430659824int * 4373266307999640852008674729620060867147370424759597160660555668487430659824int, m, 873777685704091966579707407393626090132710805870034965795411252500387427029int, 4666900249409814785011107589484685931929223315232355712813717793935761721069int);
    assert(mod_pow(3, 73730675776627404233425921528nat, 21888242871839275222246405745257275088696311157297823662689037894645226208583nat) == 4666900249409814785011107589484685931929223315232355712813717793935761721069nat);
    lemma_fundamental_div_mod_converse(4666900249409814785011107589484685931929223315232355712813717793935761721069int * 4666900249409814785011107589484685931929223315232355712813717793935761721069int, m, 995052826554789385744965129599301458608119815495778211821092900611788200933int, 9833184990079765115267192767995341366009352636809592655861262906202785294822int);
    lemma_fundamental_div_mod_converse(9833184990079765115267192767995341366009352636809592655861262906202785294822int * 3, m, 1int, 7611312098400020123555172558728749009331746753130954304894750823963129675883int);
    assert(mod_pow(3, 147461351553254808466851843057nat, 21888242871839275222246405745257275088696311157297823662689037894645226208583nat) == 7611312098400020123555172558728749009331746753130954304894750823963129675883nat);
    lemma_fundamental_div_mod_converse(7611312098400020123555172558728749009331746753130954304894750823963129675883int * 7611312098400020123555172558728749009331746753130954304894750823963129675883int, m, 2646720990737182425891801931767457116647929439538124080711283848798793853695int, 1534642835047979576014397566314372073824447215080733688777260611464176565504int);
    assert(mod_pow(3, 294922703106509616933703686114nat, 21888242871839275222246405745257275088696311157297823662689037894645226208583nat) == 1534642835047979576014397566314372073824447215080733688777260611464176565504nat);
    lemma_fundamental_div_mod_converse(1534642835047979576014397566314372073824447215080733688777260611464176565504int * 1534642835047979576014397566314372073824447215080733688777260611464176565504int, m, 107597884624815391906304160544045066600060954112782885408309273803807216732int, 7929621319937424853287081650990185669193501283637687546773594400447083163260int);
    lemma_fundamental_div_mod_converse(7929621319937424853287081650990185669193501283637687546773594400447083163260int * 3, m, 1int, 1900621087972999337614839207713281918884192693615238977631745306696023281197int);
    assert(mod_pow(3, 589845406213019233867407372229nat, 21888242871839275222246405745257275088696311157297823662689037894645226208583nat) == 1900621087972999337614839207713281918884192693615238977631745306696023281197nat);
    lemma_fundamental_div_mod_converse(1900621087972999337614839207713281918884192693615238977631745306696023281197int * 1900621087972999337614839207713281918884192693615238977631745306696023281197int, m, 165036569687154609591198918907771874284505847154237836109391326641600151518int, 20207434137498691335643806768433286008801809222355171511426223192000661673815int);
    assert(mod_pow(3, 1179690812426038467734814744458nat, 21888242871839275222246405745257275088696311157297823662689037894645226208583nat) == 20207434137498691335643806768433286008801809222355171511426223192000661673815nat);
    lemma_fundamental_div_mod_converse(20207434137498691335643806768433286008801809222355171511426223192000661673815int * 20207434137498691335643806768433286008801809222355171511426223192000661673815int, m, 18655695517099062638932816756980201420379700467472642504324709608727169375883int, 145662617287608133017681205098137210426283285289361933767057507582968850436int);
    assert(mod_pow(3, 2359381624852076935469629488916nat, 21888242871839275222246405745257275088696311157297823662689037894645226208583nat) == 145662617287608133017681205098137210426283285289361933767057507582968850436nat);
    lemma_fundamental_div_mod_converse(145662617287608133017681205098137210426283285289361933767057507582968850436int * 145662617287608133017681205098137210426283285289361933767057507582968850436int, m, 969360500946107922256575433143940110608717944161852739970803816195707566int, 2626377842705540939039148945545989984417096117196009014485356675142150151118int);
    lemma_fundamental_div_mod_converse(2626377842705540939039148945545989984417096117196009014485356675142150151118int * 3, m, 0int, 7879133528116622817117446836637969953251288351588027043456070025426450453354int);
    assert(mod_pow(3, 4718763249704153870939258977833nat, 21888242871839275222246405745257275088696311157297823662689037894645226208583nat) == 7879133528116622817117446836637969953251288351588027043456070025426450453354nat);
    lemma_fundamental_div_mod_converse(7879133528116622817117446836637969953251288351588027043456070025426450453354int * 7879133528116622817117446836637969953251288351588027043456070025426450453354int, m, 2836259882412152609461665738258567794258834273693754244086986039831587468979int, 993890111833592033255061547189485232954233303801793138434724188378833802559int);
    assert(mod_pow(3, 9437526499408307741878517955666nat, 21888242871839275222246405745257275088696311157297823662689037894645226208583nat) == 993890111833592033255061547189485232954233303801793138434724188378833802559nat);
    lemma_fundamental_div_mod_converse(993890111833592033255061547189485232954233303801793138434724188378833802559int * 993890111833592033255061547189485232954233303801793138434724188378833802559int, m, 45130052703841525443526987717919732049610340030258579385212073295436509121int, 3486885783011099407955397856110529677571148951539916569085411755171666962938int);
    assert(mod_pow(3, 18875052998816615483757035911332nat, 21888242871839275222246405745257275088696311157297823662689037894645226208583nat) == 3486885783011099407955397856110529677571148951539916569085411755171666962938nat);
    lemma_fundamental_div_mod_converse(3486885783011099407955397856110529677571148951539916569085411755171666962938int * 3486885783011099407955397856110529677571148951539916569085411755171666962938int, m, 555475034471931385194750421320787484944965614245924812361825601671715116873int, 20968960310681295122204146524620245066399541479032282678539301591504144870885int);
    lemma_fundamental_div_mod_converse(20968960310681295122204146524620245066399541479032282678539301591504144870885int * 3, m, 2int, 19130395188365334922119628083346185021806002122501200710239828985221982195489int);
    assert(mod_pow(3, 37750105997633230967514071822665nat, 21888242871839275222246405745257275088696311157297823662689037894645226208583nat) == 19130395188365334922119628083346185021806002122501200710239828985221982195489nat);
    lemma_fundamental_div_mod_converse(19130395188365334922119628083346185021806002122501200710239828985221982195489int * 19130395188365334922119628083346185021806002122501200710239828985221982195489int, m, 16720027377523284314033414136900410010882367911455975909513790330771493214932int, 5859438975640615397979067989194571906233333752174533580342314828032729787765int);
    lemma_fundamental_div_mod_converse(5859438975640615397979067989194571906233333752174533580342314828032729787765int * 3, m, 0int, 17578316926921846193937203967583715718700001256523600741026944484098189363295int);
    assert(mod_pow(3, 75500211995266461935028143645331nat, 21888242871839275222246405745257275088696311157297823662689037894645226208583nat) == 17578316926921846193937203967583715718700001256523600741026944484098189363295nat);
    lemma_fundamental_div_mod_converse(17578316926921846193937203967583715718700001256523600741026944484098189363295int * 17578316926921846193937203967583715718700001256523600741026944484098189363295int, m, 14117041180169524248834410836881502112334830005268151070388435712995720338589int, 14580158434945852686772226454349826296162640956858980439391314085515995347638int);
    lemma_fundamental_div_mod_converse(14580158434945852686772226454349826296162640956858980439391314085515995347638int * 3, m, 1int, 21852232432998282838070273617792203799791611713279117655484904361902759834331int);
    assert(mod_pow(3, 151000423990532923870056287290663nat, 21888242871839275222246405745257275088696311157297823662689037894645226208583nat) == 21852232432998282838070273617792203799791611713279117655484904361902759834331nat);
    lemma_fundamental_div_mod_converse(21852232432998282838070273617792203799791611713279117655484904361902759834331int * 21852232432998282838070273617792203799791611713279117655484904361902759834331int, m, 21816281238369496688725333736165039142141168959113948454341115264056479589116int, 17631905011564229007407462732432992318886787478713165501028969699692213634933int);
    lemma_fundamental_div_mod_converse(17631905011564229007407462732432992318886787478713165501028969699692213634933int * 3, m, 2int, 9119229291014136577729576706784426779267740121543849177708833309786188487633int);
    assert(mod_pow(3, 302000847981065847740112574581327nat, 21888242871839275222246405745257275088696311157297823662689037894645226208583nat) == 9119229291014136577729576706784426779267740121543849177708833309786188487633nat);
    lemma_fundamental_div_mod_converse(9119229291014136577729576706784426779267740121543849177708833309786188487633int * 9119229291014136577729576706784426779267740121543849177708833309786188487633int, m, 3799315611993764623362763231291640637903870917244971724740137214935583585113int, 7000474631970210740412036236028474689845713388806873004003444061712322317810int);
    assert(mod_pow(3, 604001695962131695480225149162654nat, 21888242871839275222246405745257275088696311157297823662689037894645226208583nat) == 7000474631970210740412036236028474689845713388806873004003444061712322317810nat);
    lemma_fundamental_div_mod_converse(7000474631970210740412036236028474689845713388806873004003444061712322317810int * 7000474631970210740412036236028474689845713388806873004003444061712322317810int, m, 2238948341344880887817577194464177899668181236463101035166215086027937661018int, 2811959067563839381960151007905275307454064031299174816569126944889427078606int);
    assert(mod_pow(3, 1208003391924263390960450298325308nat, 21888242871839275222246405745257275088696311157297823662689037894645226208583nat) == 2811959067563839381960151007905275307454064031299174816569126944889427078606nat);
    lemma_fundamental_div_mod_converse(2811959067563839381960151007905275307454064031299174816569126944889427078606int * 2811959067563839381960151007905275307454064031299174816569126944889427078606int, m, 361249363137666062068670626276050073213856023642867157093616300246169315525int, 17725820537915551956050369215761488232974314530481101811670546909935712752161int);
    lemma_fundamental_div_mod_converse(17725820537915551956050369215761488232974314530481101811670546909935712752161int * 3, m, 2int, 9400975870068105423658296156769914521530321276847658109633564940516685839317int);
    assert(mod_pow(3, 2416006783848526781920900596650617nat, 21888242871839275222246405745257275088696311157297823662689037894645226208583nat) == 9400975870068105423658296156769914521530321276847658109633564940516685839317nat);
    lemma_fundamental_div_mod_converse(9400975870068105423658296156769914521530321276847658109633564940516685839317int * 9400975870068105423658296156769914521530321276847658109633564940516685839317int, m, 4037708637786890306774472576712559168800350278979124450071472396855248603020int, 3195486844959694485656712569453462680952554296359411441819320240210859305829int);
    assert(mod_pow(3, 4832013567697053563841801193301234nat, 21888242871839275222246405745257275088696311157297823662689037894645226208583nat) == 3195486844959694485656712569453462680952554296359411441819320240210859305829nat);
    lemma_fundamental_div_mod_converse(3195486844959694485656712569453462680952554296359411441819320240210859305829int * 3195486844959694485656712569453462680952554296359411441819320240210859305829int, m, 466512375438221637854885660721997895020145211737820387612093798050123252807int, 14310422470399888880868322585937456698953181432259879315946631712179931134760int);
    lemma_fundamental_div_mod_converse(14310422470399888880868322585937456698953181432259879315946631712179931134760int * 3, m, 1int, 21043024539360391420358562012555095008163233139481814285150857241894567195697int);
    assert(mod_pow(3, 9664027135394107127683602386602469nat, 21888242871839275222246405745257275088696311157297823662689037894645226208583nat) == 21043024539360391420358562012555095008163233139481814285150857241894567195697nat);
    lemma_fundamental_div_mod_converse(21043024539360391420358562012555095008163233139481814285150857241894567195697int * 21043024539360391420358562012555095008163233139481814285150857241894567195697int, m, 20230444460840097499054076094297042807660796423911780834019244065018604282349int, 5681066021005000824339072516265621871680622231084442255348338106741796114342int);
    lemma_fundamental_div_mod_converse(5681066021005000824339072516265621871680622231084442255348338106741796114342int * 3, m, 0int, 17043198063015002473017217548796865615041866693253326766045014320225388343026int);
    assert(mod_pow(3, 19328054270788214255367204773204939nat, 21888242871839275222246405745257275088696311157297823662689037894645226208583nat) == 17043198063015002473017217548796865615041866693253326766045014320225388343026nat);
    lemma_fundamental_div_mod_converse(17043198063015002473017217548796865615041866693253326766045014320225388343026int * 17043198063015002473017217548796865615041866693253326766045014320225388343026int, m, 13270622128780774340058910357453085928462601370645288792416820209174976357616int, 1526042781909788558611722353777614082506849037712952171021683444771026218548int);
    lemma_fundamental_div_mod_converse(1526042781909788558611722353777614082506849037712952171021683444771026218548int * 3, m, 0int, 4578128345729365675835167061332842247520547113138856513065050334313078655644int);
    assert(mod_pow(3, 38656108541576428510734409546409879nat, 21888242871839275222246405745257275088696311157297823662689037894645226208583nat) == 4578128345729365675835167061332842247520547113138856513065050334313078655644nat);
    lemma_fundamental_div_mod_converse(4578128345729365675835167061332842247520547113138856513065050334313078655644int * 4578128345729365675835167061332842247520547113138856513065050334313078655644int, m, 957557866690899246051832398904317027463434632547104082968150577333209158010int, 4016277094140130536344196430415743721110016662298247804971899792928267854906int);
    assert(mod_pow(3, 77312217083152857021468819092819758nat, 21888242871839275222246405745257275088696311157297823662689037894645226208583nat) == 4016277094140130536344196430415743721110016662298247804971899792928267854906nat);
    lemma_fundamental_div_mod_converse(4016277094140130536344196430415743721110016662298247804971899792928267854906int * 4016277094140130536344196430415743721110016662298247804971899792928267854906int, m, 736947309629301551874436662501881040627615248874954935709241574307788920844int, 5029783990363340005892712540936338165605121369292132308601198937759447864784int);
    lemma_fundamental_div_mod_converse(5029783990363340005892712540936338165605121369292132308601198937759447864784int * 3, m, 0int, 15089351971090020017678137622809014496815364107876396925803596813278343594352int);
    assert(mod_pow(3, 154624434166305714042937638185639517nat, 21888242871839275222246405745257275088696311157297823662689037894645226208583nat) == 15089351971090020017678137622809014496815364107876396925803596813278343594352nat);
    lemma_fundamental_div_mod_converse(15089351971090020017678137622809014496815364107876396925803596813278343594352int * 15089351971090020017678137622809014496815364107876396925803596813278343594352int, m, 10402321659194269522548343549617013648450935523259700298069260723905380486780int, 1869773405507436435278067460391157953284605533244248695170511229700372267164int);
    lemma_fundamental_div_mod_converse(1869773405507436435278067460391157953284605533244248695170511229700372267164int * 3, m, 0int, 5609320216522309305834202381173473859853816599732746085511533689101116801492int);
    assert(mod_pow(3, 309248868332611428085875276371279035nat, 21888242871839275222246405745257275088696311157297823662689037894645226208583nat) == 5609320216522309305834202381173473859853816599732746085511533689101116801492nat);
    lemma_fundamental_div_mod_converse(5609320216522309305834202381173473859853816599732746085511533689101116801492int * 5609320216522309305834202381173473859853816599732746085511533689101116801492int, m, 1437505672598648316591202712513486229032325387424768822316477928197324662035int, 10567774014342375108917481603668258923891416887097412954570681661207642179659int);
    lemma_fundamental_div_mod_converse(10567774014342375108917481603668258923891416887097412954570681661207642179659int * 3, m, 1int, 9815079171187850104506039065747501682977939503994415201023007088977700330394int);
    assert(mod_pow(3, 618497736665222856171750552742558071nat, 21888242871839275222246405745257275088696311157297823662689037894645226208583nat) == 9815079171187850104506039065747501682977939503994415201023007088977700330394nat);
    lemma_fundamental_div_mod_converse(9815079171187850104506039065747501682977939503994415201023007088977700330394int * 9815079171187850104506039065747501682977939503994415201023007088977700330394int, m, 4401256861994534869853697203376233237809541229676867949500371014862589292733int, 4700954084547374572148455583145590939168354021492485452593345018131656067897int);
    assert(mod_pow(3, 1236995473330445712343501105485116142nat, 21888242871839275222246405745257275088696311157297823662689037894645226208583nat) == 4700954084547374572148455583145590939168354021492485452593345018131656067897nat);
    lemma_fundamental_div_mod_converse(4700954084547374572148455583145590939168354021492485452593345018131656067897int * 4700954084547374572148455583145590939168354021492485452593345018131656067897int, m, 1009627380069620997095326924069801566483660827815791650764824668344582248640int, 247003134672938022400636589027480448134156086035345328227507067107665925489int);
    assert(mod_pow(3, 2473990946660891424687002210970232284nat, 21888242871839275222246405745257275088696311157297823662689037894645226208583nat) == 247003134672938022400636589027480448134156086035345328227507067107665925489nat);
    lemma_fundamental_div_mod_converse(247003134672938022400636589027480448134156086035345328227507067107665925489int * 247003134672938022400636589027480448134156086035345328227507067107665925489int, m, 2787366208219107900102542274411029767134995472721240021822714257511030258int, 19585076247851000286171213911228129353512577476472008775171196401731367584707int);
    assert(mod_pow(3, 4947981893321782849374004421940464568nat, 21888242871839275222246405745257275088696311157297823662689037894645226208583nat) == 19585076247851000286171213911228129353512577476472008775171196401731367584707nat);
    lemma_fundamental_div_mod_converse(19585076247851000286171213911228129353512577476472008775171196401731367584707int * 19585076247851000286171213911228129353512577476472008775171196401731367584707int, m, 17524257834676771510435540674034457909568021341535792167220350373636858581027int, 13150635574714078379159507076498884057769439637792982181470486737550311921108int);
    assert(mod_pow(3, 9895963786643565698748008843880929136nat, 21888242871839275222246405745257275088696311157297823662689037894645226208583nat) == 13150635574714078379159507076498884057769439637792982181470486737550311921108nat);
    lemma_fundamental_div_mod_converse(13150635574714078379159507076498884057769439637792982181470486737550311921108int * 13150635574714078379159507076498884057769439637792982181470486737550311921108int, m, 7901009552549950641468333205375675079936210317697476782933127348810553367813int, 7700063289162978127495731391165669271430974478442112544835089631413759408685int);
    lemma_fundamental_div_mod_converse(7700063289162978127495731391165669271430974478442112544835089631413759408685int * 3, m, 1int, 1211946995649659160240788428239732725596612278028513971816230999596052017472int);
    assert(mod_pow(3, 19791927573287131397496017687761858273nat, 21888242871839275222246405745257275088696311157297823662689037894645226208583nat) == 1211946995649659160240788428239732725596612278028513971816230999596052017472nat);
    lemma_fundamental_div_mod_converse(1211946995649659160240788428239732725596612278028513971816230999596052017472int * 1211946995649659160240788428239732725596612278028513971816230999596052017472int, m, 67105227626744164367044759901239762125666073655808418562229500724388887688int, 3370793999321571909174052189441225140548271607074743468097493473856544644680int);
    lemma_fundamental_div_mod_converse(3370793999321571909174052189441225140548271607074743468097493473856544644680int * 3, m, 0int, 10112381997964715727522156568323675421644814821224230404292480421569633934040int);
    assert(mod_pow(3, 39583855146574262794992035375523716547nat, 21888242871839275222246405745257275088696311157297823662689037894645226208583nat) == 10112381997964715727522156568323675421644814821224230404292480421569633934040nat);
    lemma_fundamental_div_mod_converse(10112381997964715727522156568323675421644814821224230404292480421569633934040int * 10112381997964715727522156568323675421644814821224230404292480421569633934040int, m, 4671926854591224508674737564228895036967174003757346255623355544141158328560int, 10277018212098109686683943467049230654082828554172490170358740551204864691120int);
    assert(mod_pow(3, 79167710293148525589984070751047433094nat, 21888242871839275222246405745257275088696311157297823662689037894645226208583nat) == 10277018212098109686683943467049230654082828554172490170358740551204864691120nat);
    lemma_fundamental_div_mod_converse(10277018212098109686683943467049230654082828554172490170358740551204864691120int * 10277018212098109686683943467049230654082828554172490170358740551204864691120int, m, 4825289263748067687384684276550458872579324448536593923920086289483619417155int, 6381376416243695459956603649339249924725291201235504641931742922652088413035int);
    lemma_fundamental_div_mod_converse(6381376416243695459956603649339249924725291201235504641931742922652088413035int * 3, m, 0int, 19144129248731086379869810948017749774175873603706513925795228767956265239105int);
    assert(mod_pow(3, 158335420586297051179968141502094866189nat, 21888242871839275222246405745257275088696311157297823662689037894645226208583nat) == 19144129248731086379869810948017749774175873603706513925795228767956265239105nat);
    lemma_fundamental_div_mod_converse(19144129248731086379869810948017749774175873603706513925795228767956265239105int * 19144129248731086379869810948017749774175873603706513925795228767956265239105int, m, 16744043221653276820666276960000473802731437640225776110195156225169422101747int, 6371174784616544685674523079829675930849394730918819125058814237162750506524int);
    lemma_fundamental_div_mod_converse(6371174784616544685674523079829675930849394730918819125058814237162750506524int * 3, m, 0int, 19113524353849634057023569239489027792548184192756457375176442711488251519572int);
    assert(mod_pow(3, 316670841172594102359936283004189732379nat, 21888242871839275222246405745257275088696311157297823662689037894645226208583nat) == 19113524353849634057023569239489027792548184192756457375176442711488251519572nat);
    lemma_fundamental_div_mod_converse(19113524353849634057023569239489027792548184192756457375176442711488251519572int * 19113524353849634057023569239489027792548184192756457375176442711488251519572int, m, 16690550053025090356722899359749460973234936998660428057955210668268144786784int, 17005633179615816078091389128801046039723139421409286468280825280429853296112int);
    lemma_fundamental_div_mod_converse(17005633179615816078091389128801046039723139421409286468280825280429853296112int * 3, m, 2int, 7240413795168897789781355895888587941776795949632212079464400051999107471170int);
    assert(mod_pow(3, 633341682345188204719872566008379464759nat, 21888242871839275222246405745257275088696311157297823662689037894645226208583nat) == 7240413795168897789781355895888587941776795949632212079464400051999107471170nat);
    lemma_fundamental_div_mod_converse(7240413795168897789781355895888587941776795949632212079464400051999107471170int * 7240413795168897789781355895888587941776795949632212079464400051999107471170int, m, 2395057119578960180976737152784841801940100035317886573574137681246107084341int, 7875039266437402034224636548094198302188812519288114821010123475952342070097int);
    assert(mod_pow(3, 1266683364690376409439745132016758929518nat, 21888242871839275222246405745257275088696311157297823662689037894645226208583nat) == 7875039266437402034224636548094198302188812519288114821010123475952342070097nat);
    lemma_fundamental_div_mod_converse(7875039266437402034224636548094198302188812519288114821010123475952342070097int * 7875039266437402034224636548094198302188812519288114821010123475952342070097int, m, 2833313016995031758630094480714872091227214581795989089417465518199375957029int, 16276077619570678493178745428273028644397288935776917304688481870210462609502int);
    assert(mod_pow(3, 2533366729380752818879490264033517859036nat, 21888242871839275222246405745257275088696311157297823662689037894645226208583nat) == 16276077619570678493178745428273028644397288935776917304688481870210462609502nat);
    lemma_fundamental_div_mod_converse(16276077619570678493178745428273028644397288935776917304688481870210462609502int * 16276077619570678493178745428273028644397288935776917304688481870210462609502int, m, 12102876609575421939585343214048017766501597770687974335217514818383138772233int, 12246570508516003514211659378578786440065066703760146314183509913347154012165int);
    assert(mod_pow(3, 5066733458761505637758980528067035718072nat, 21888242871839275222246405745257275088696311157297823662689037894645226208583nat) == 12246570508516003514211659378578786440065066703760146314183509913347154012165nat);
    lemma_fundamental_div_mod_converse(12246570508516003514211659378578786440065066703760146314183509913347154012165int * 12246570508516003514211659378578786440065066703760146314183509913347154012165int, m, 6852011378812482545841002126836665300998781711513404854661052407993650723048int, 20623746832585318168029829964623812256981715757017771757539212571239354466241int);
    assert(mod_pow(3, 10133466917523011275517961056134071436144nat, 21888242871839275222246405745257275088696311157297823662689037894645226208583nat) == 20623746832585318168029829964623812256981715757017771757539212571239354466241nat);
    lemma_fundamental_div_mod_converse(20623746832585318168029829964623812256981715757017771757539212571239354466241int * 20623746832585318168029829964623812256981715757017771757539212571239354466241int, m, 19432301437124522965741869961693557103445463979286829519510512712442052424136int, 18692903459350635598852600599460484376870162192443577319902165431318489110793int);
    lemma_fundamental_div_mod_converse(18692903459350635598852600599460484376870162192443577319902165431318489110793int * 3, m, 2int, 12302224634373356352064990307866902953217864262735084634328420504665014915213int);
    assert(mod_pow(3, 20266933835046022551035922112268142872289nat, 21888242871839275222246405745257275088696311157297823662689037894645226208583nat) == 12302224634373356352064990307866902953217864262735084634328420504665014915213nat);
    lemma_fundamental_div_mod_converse(12302224634373356352064990307866902953217864262735084634328420504665014915213int * 12302224634373356352064990307866902953217864262735084634328420504665014915213int, m, 6914430356093043523027103042696465775218437635170322973147145847820905912589int, 10301365930517129880735231749659444913144857589814942912099430209585499283982int);
    lemma_fundamental_div_mod_converse(10301365930517129880735231749659444913144857589814942912099430209585499283982int * 3, m, 1int, 9015854919712114419959289503721059650738261612147005073609252734111271643363int);
    assert(mod_pow(3, 40533867670092045102071844224536285744579nat, 21888242871839275222246405745257275088696311157297823662689037894645226208583nat) == 9015854919712114419959289503721059650738261612147005073609252734111271643363nat);
    lemma_fundamental_div_mod_converse(9015854919712114419959289503721059650738261612147005073609252734111271643363int * 9015854919712114419959289503721059650738261612147005073609252734111271643363int, m, 3713666757502800036452338557369269332746341658473766731368743762836754289458int, 6252213151130365612493970005934900677183756639798034075148159100155195931755int);
    lemma_fundamental_div_mod_converse(6252213151130365612493970005934900677183756639798034075148159100155195931755int * 3, m, 0int, 18756639453391096837481910017804702031551269919394102225444477300465587795265int);
    assert(mod_pow(3, 81067735340184090204143688449072571489159nat, 21888242871839275222246405745257275088696311157297823662689037894645226208583nat) == 18756639453391096837481910017804702031551269919394102225444477300465587795265nat);
    lemma_fundamental_div_mod_converse(18756639453391096837481910017804702031551269919394102225444477300465587795265int * 18756639453391096837481910017804702031551269919394102225444477300465587795265int, m, 16073082048862730039474369628194824745899806536297575450536240444378752494987int, 1433358566064263724808042391850705478273192107837125718998359537909832546804int);
    assert(mod_pow(3, 162135470680368180408287376898145142978318nat, 21888242871839275222246405745257275088696311157297823662689037894645226208583nat) == 1433358566064263724808042391850705478273192107837125718998359537909832546804nat);
    lemma_fundamental_div_mod_converse(1433358566064263724808042391850705478273192107837125718998359537909832546804int * 1433358566064263724808042391850705478273192107837125718998359537909832546804int, m, 93863942891143580062781271467687851227187987473604522995209877668523903545int, 2385906702903744705954039437898005582600006986685049905620950567405307487681int);
    lemma_fundamental_div_mod_converse(2385906702903744705954039437898005582600006986685049905620950567405307487681int * 3, m, 0int, 7157720108711234117862118313694016747800020960055149716862851702215922463043int);
    assert(mod_pow(3, 324270941360736360816574753796290285956637nat, 21888242871839275222246405745257275088696311157297823662689037894645226208583nat) == 7157720108711234117862118313694016747800020960055149716862851702215922463043nat);
    lemma_fundamental_div_mod_converse(7157720108711234117862118313694016747800020960055149716862851702215922463043int * 7157720108711234117862118313694016747800020960055149716862851702215922463043int, m, 2340661032255077555160372138372304646072110850859798092315813475559009199776int, 17353249717351067041461647617645021911543504907792198553352054215070407942441int);
    lemma_fundamental_div_mod_converse(17353249717351067041461647617645021911543504907792198553352054215070407942441int * 3, m, 2int, 8283263408374650679892131362420515557237892408780948334678086855920771410157int);
    assert(mod_pow(3, 648541882721472721633149507592580571913275nat, 21888242871839275222246405745257275088696311157297823662689037894645226208583nat) == 8283263408374650679892131362420515557237892408780948334678086855920771410157nat);
    lemma_fundamental_div_mod_converse(8283263408374650679892131362420515557237892408780948334678086855920771410157int * 8283263408374650679892131362420515557237892408780948334678086855920771410157int, m, 3134671572051727295497203998866284623594703285407452502162688878924644436312int, 765653613030644553529901541571648509111817929484707265965691501553351498753int);
    assert(mod_pow(3, 1297083765442945443266299015185161143826550nat, 21888242871839275222246405745257275088696311157297823662689037894645226208583nat) == 765653613030644553529901541571648509111817929484707265965691501553351498753nat);
    lemma_fundamental_div_mod_converse(765653613030644553529901541571648509111817929484707265965691501553351498753int * 765653613030644553529901541571648509111817929484707265965691501553351498753int, m, 26782664034722459423898294709552636918078429004213583472505423919058515805int, 8209228448318370029350601476989612393476924384193811016726075780412028400694int);
    lemma_fundamental_div_mod_converse(8209228448318370029350601476989612393476924384193811016726075780412028400694int * 3, m, 1int, 2739442473115834865805398685711562091734461995283609387489189446590858993499int);
    assert(mod_pow(3, 2594167530885890886532598030370322287653101nat, 21888242871839275222246405745257275088696311157297823662689037894645226208583nat) == 2739442473115834865805398685711562091734461995283609387489189446590858993499nat);
    lemma_fundamental_div_mod_converse(2739442473115834865805398685711562091734461995283609387489189446590858993499int * 2739442473115834865805398685711562091734461995283609387489189446590858993499int, m, 342857355314076547118577988335789979168803799726008677663901228151312112884int, 7668998003580054228369670977979957575677087839347414151951166177825098579629int);
    assert(mod_pow(3, 5188335061771781773065196060740644575306202nat, 21888242871839275222246405745257275088696311157297823662689037894645226208583nat) == 7668998003580054228369670977979957575677087839347414151951166177825098579629nat);
    lemma_fundamental_div_mod_converse(7668998003580054228369670977979957575677087839347414151951166177825098579629int * 7668998003580054228369670977979957575677087839347414151951166177825098579629int, m, 2686991857833526492702099944740927536579466398457049888816516289404424683317int, 21128870366153567607599460853433415941047237012695869615440554812784891467830int);
    assert(mod_pow(3, 10376670123543563546130392121481289150612404nat, 21888242871839275222246405745257275088696311157297823662689037894645226208583nat) == 21128870366153567607599460853433415941047237012695869615440554812784891467830nat);
    lemma_fundamental_div_mod_converse(21128870366153567607599460853433415941047237012695869615440554812784891467830int * 21128870366153567607599460853433415941047237012695869615440554812784891467830int, m, 20395842899024302795566952317908036471547051363335186420434723003398419727604int, 6464366407438860534110267832203027170308697353553285605663201200731378083768int);
    lemma_fundamental_div_mod_converse(6464366407438860534110267832203027170308697353553285605663201200731378083768int * 3, m, 0int, 19393099222316581602330803496609081510926092060659856816989603602194134251304int);
    assert(mod_pow(3, 20753340247087127092260784242962578301224809nat, 21888242871839275222246405745257275088696311157297823662689037894645226208583nat) == 19393099222316581602330803496609081510926092060659856816989603602194134251304nat);
    lemma_fundamental_div_mod_converse(19393099222316581602330803496609081510926092060659856816989603602194134251304int * 19393099222316581602330803496609081510926092060659856816989603602194134251304int, m, 17182388721137799596337693575724910462096251403457171076064020889000912142298int, 19236777948948973435849517023907687956631354933358666217497432729737900756682int);
    assert(mod_pow(3, 41506680494174254184521568485925156602449618nat, 21888242871839275222246405745257275088696311157297823662689037894645226208583nat) == 19236777948948973435849517023907687956631354933358666217497432729737900756682nat);
    lemma_fundamental_div_mod_converse(19236777948948973435849517023907687956631354933358666217497432729737900756682int * 19236777948948973435849517023907687956631354933358666217497432729737900756682int, m, 16906502181281478200081315148311350378832545402292285731802640152989875377231int, 4852164944875090073242458710499096575804682454165774672641864317443152675451int);
    lemma_fundamental_div_mod_converse(4852164944875090073242458710499096575804682454165774672641864317443152675451int * 3, m, 0int, 14556494834625270219727376131497289727414047362497324017925592952329458026353int);
    assert(mod_pow(3, 83013360988348508369043136971850313204899237nat, 21888242871839275222246405745257275088696311157297823662689037894645226208583nat) == 14556494834625270219727376131497289727414047362497324017925592952329458026353nat);
    lemma_fundamental_div_mod_converse(14556494834625270219727376131497289727414047362497324017925592952329458026353int * 14556494834625270219727376131497289727414047362497324017925592952329458026353int, m, 9680609956274067374427639493153351687905211055850223899035568729668489883641int, 858402595916696980172970893884270913836798909170495823463633081640776989906int);
    lemma_fundamental_div_mod_converse(858402595916696980172970893884270913836798909170495823463633081640776989906int * 3, m, 0int, 2575207787750090940518912681652812741510396727511487470390899244922330969718int);
    assert(mod_pow(3, 166026721976697016738086273943700626409798475nat, 21888242871839275222246405745257275088696311157297823662689037894645226208583nat) == 2575207787750090940518912681652812741510396727511487470390899244922330969718nat);
    lemma_fundamental_div_mod_converse(2575207787750090940518912681652812741510396727511487470390899244922330969718int * 2575207787750090940518912681652812741510396727511487470390899244922330969718int, m, 302979786404912740149592808044487612875483347713626919636659616764905039357int, 14828680416885980430684141435573855553664909576241118109140747328598726798393int);
    assert(mod_pow(3, 332053443953394033476172547887401252819596950nat, 21888242871839275222246405745257275088696311157297823662689037894645226208583nat) == 14828680416885980430684141435573855553664909576241118109140747328598726798393nat);
    lemma_fundamental_div_mod_converse(14828680416885980430684141435573855553664909576241118109140747328598726798393int * 14828680416885980430684141435573855553664909576241118109140747328598726798393int, m, 10046021701862648218197958570035703937361213338708439760727366025531297555898int, 18783704831149161774907778866809852159890421143973135719142767913451017509915int);
    lemma_fundamental_div_mod_converse(18783704831149161774907778866809852159890421143973135719142767913451017509915int * 3, m, 2int, 12574628749768934880230525109915006302278641117323759832050227951062600112579int);
    assert(mod_pow(3, 664106887906788066952345095774802505639193901nat, 21888242871839275222246405745257275088696311157297823662689037894645226208583nat) == 12574628749768934880230525109915006302278641117323759832050227951062600112579nat);
    lemma_fundamental_div_mod_converse(12574628749768934880230525109915006302278641117323759832050227951062600112579int * 12574628749768934880230525109915006302278641117323759832050227951062600112579int, m, 7224028402844036509795325277005662576024495054446953423098092964198556046543int, 14170497413814250326269657712899166919468856724418067629886789796733899952672int);
    lemma_fundamental_div_mod_converse(14170497413814250326269657712899166919468856724418067629886789796733899952672int * 3, m, 1int, 20623249369603475756562567393440225669710259015956379226971331495556473649433int);
    assert(mod_pow(3, 1328213775813576133904690191549605011278387803nat, 21888242871839275222246405745257275088696311157297823662689037894645226208583nat) == 20623249369603475756562567393440225669710259015956379226971331495556473649433nat);
    lemma_fundamental_div_mod_converse(20623249369603475756562567393440225669710259015956379226971331495556473649433int * 20623249369603475756562567393440225669710259015956379226971331495556473649433int, m, 19431363999896558798252002551536019120911106856094301164218648187253162600155int, 8908388447596370840654067182650716949282601350029644742117299939256723091124int);
    lemma_fundamental_div_mod_converse(8908388447596370840654067182650716949282601350029644742117299939256723091124int * 3, m, 1int, 4836922470949837299715795802694875759151492892791110563662861923124943064789int);
    assert(mod_pow(3, 2656427551627152267809380383099210022556775607nat, 21888242871839275222246405745257275088696311157297823662689037894645226208583nat) == 4836922470949837299715795802694875759151492892791110563662861923124943064789nat);
    lemma_fundamental_div_mod_converse(4836922470949837299715795802694875759151492892791110563662861923124943064789int * 4836922470949837299715795802694875759151492892791110563662861923124943064789int, m, 1068876068625855958802481064669426347987156433143637992437632380242208619354int, 400115833565219278785845893774692003647989462962303683549160764963796899139int);
    lemma_fundamental_div_mod_converse(400115833565219278785845893774692003647989462962303683549160764963796899139int * 3, m, 0int, 1200347500695657836357537681324076010943968388886911050647482294891390697417int);
    assert(mod_pow(3, 5312855103254304535618760766198420045113551215nat, 21888242871839275222246405745257275088696311157297823662689037894645226208583nat) == 1200347500695657836357537681324076010943968388886911050647482294891390697417nat);
    lemma_fundamental_div_mod_converse(1200347500695657836357537681324076010943968388886911050647482294891390697417int * 1200347500695657836357537681324076010943968388886911050647482294891390697417int, m, 65826851925151294350284448408338104386108726766457812492589895399146984487int, 18714232719517260073622743295022878820894724764411569750154130006681123219968int);
    assert(mod_pow(3, 10625710206508609071237521532396840090227102430nat, 21888242871839275222246405745257275088696311157297823662689037894645226208583nat) == 18714232719517260073622743295022878820894724764411569750154130006681123219968nat);
    lemma_fundamental_div_mod_converse(18714232719517260073622743295022878820894724764411569750154130006681123219968int * 18714232719517260073622743295022878820894724764411569750154130006681123219968int, m, 16000485207098813947141511335568238551062406583707664974458062168858323083156int, 6464655849287330865346799066388038979159311032949877213584310303559603993076int);
    assert(mod_pow(3, 21251420413017218142475043064793680180454204860nat, 21888242871839275222246405745257275088696311157297823662689037894645226208583nat) == 6464655849287330865346799066388038979159311032949877213584310303559603993076nat);
    lemma_fundamental_div_mod_converse(6464655849287330865346799066388038979159311032949877213584310303559603993076int * 6464655849287330865346799066388038979159311032949877213584310303559603993076int, m, 1909325270850904372193783823713448830328821158222939243744266031098384520115int, 1292091263708398552377600155006666643044834500315511433683500342544506794731int);
    assert(mod_pow(3, 42502840826034436284950086129587360360908409720nat, 21888242871839275222246405745257275088696311157297823662689037894645226208583nat) == 1292091263708398552377600155006666643044834500315511433683500342544506794731nat);
    lemma_fundamental_div_mod_converse(1292091263708398552377600155006666643044834500315511433683500342544506794731int * 1292091263708398552377600155006666643044834500315511433683500342544506794731int, m, 76273817113912432938749897344420723566407464035970647498204472805660154749int, 4696927603974450843687642632887123204466364477319182747958756675137037351694int);
    lemma_fundamental_div_mod_converse(4696927603974450843687642632887123204466364477319182747958756675137037351694int * 3, m, 0int, 14090782811923352531062927898661369613399093431957548243876270025411112055082int);
    assert(mod_pow(3, 85005681652068872569900172259174720721816819441nat, 21888242871839275222246405745257275088696311157297823662689037894645226208583nat) == 14090782811923352531062927898661369613399093431957548243876270025411112055082nat);
    lemma_fundamental_div_mod_converse(14090782811923352531062927898661369613399093431957548243876270025411112055082int * 14090782811923352531062927898661369613399093431957548243876270025411112055082int, m, 9071087223188800248349728026934104712136663877931498950561368387506720482461int, 12020355360129580822792191208342356981763247137264140187119177469085822863961int);
    lemma_fundamental_div_mod_converse(12020355360129580822792191208342356981763247137264140187119177469085822863961int * 3, m, 1int, 14172823208549467246130167879769795856593430254494596898668494512612242383300int);
    assert(mod_pow(3, 170011363304137745139800344518349441443633638883nat, 21888242871839275222246405745257275088696311157297823662689037894645226208583nat) == 14172823208549467246130167879769795856593430254494596898668494512612242383300nat);
    lemma_fundamental_div_mod_converse(14172823208549467246130167879769795856593430254494596898668494512612242383300int * 14172823208549467246130167879769795856593430254494596898668494512612242383300int, m, 9177023431114703440306669445770061300700715506149377695362185149891303322832int, 5211978040299292889570998278337788956771839876111969156747041745543100622944int);
    assert(mod_pow(3, 340022726608275490279600689036698882887267277766nat, 21888242871839275222246405745257275088696311157297823662689037894645226208583nat) == 5211978040299292889570998278337788956771839876111969156747041745543100622944nat);
    lemma_fundamental_div_mod_converse(5211978040299292889570998278337788956771839876111969156747041745543100622944int * 5211978040299292889570998278337788956771839876111969156747041745543100622944int, m, 1241064221171966503532123005157693494117363322018226675283710749185523006004int, 4197460797931080643661399922344819083171082120614113422540901190278793894804int);
    lemma_fundamental_div_mod_converse(4197460797931080643661399922344819083171082120614113422540901190278793894804int * 3, m, 0int, 12592382393793241930984199767034457249513246361842340267622703570836381684412int);
    assert(mod_pow(3, 680045453216550980559201378073397765774534555533nat, 21888242871839275222246405745257275088696311157297823662689037894645226208583nat) == 12592382393793241930984199767034457249513246361842340267622703570836381684412nat);
    lemma_fundamental_div_mod_converse(12592382393793241930984199767034457249513246361842340267622703570836381684412int * 12592382393793241930984199767034457249513246361842340267622703570836381684412int, m, 7244441469329762430871006339066627215785694978951196524693439995520458282098int, 18933153127282343217759569527649744750796246892692622070324200919140360938610int);
    assert(mod_pow(3, 1360090906433101961118402756146795531549069111066nat, 21888242871839275222246405745257275088696311157297823662689037894645226208583nat) == 18933153127282343217759569527649744750796246892692622070324200919140360938610nat);
    lemma_fundamental_div_mod_converse(18933153127282343217759569527649744750796246892692622070324200919140360938610int * 18933153127282343217759569527649744750796246892692622070324200919140360938610int, m, 16377024388847130775142562893430758358386791425342750077982708756670806975740int, 3805175713527643733317535778760710165520126520703091174412972311731527955680int);
    lemma_fundamental_div_mod_converse(3805175713527643733317535778760710165520126520703091174412972311731527955680int * 3, m, 0int, 11415527140582931199952607336282130496560379562109273523238916935194583867040int);
    assert(mod_pow(3, 2720181812866203922236805512293591063098138222133nat, 21888242871839275222246405745257275088696311157297823662689037894645226208583nat) == 11415527140582931199952607336282130496560379562109273523238916935194583867040nat);
    lemma_fundamental_div_mod_converse(11415527140582931199952607336282130496560379562109273523238916935194583867040int * 11415527140582931199952607336282130496560379562109273523238916935194583867040int, m, 5953619057518945076141451179497533395680503898853442389292347340017852269850int, 12288494577845325817235993576119084240625174288361719408543858602324296239050int);
    assert(mod_pow(3, 5440363625732407844473611024587182126196276444266nat, 21888242871839275222246405745257275088696311157297823662689037894645226208583nat) == 12288494577845325817235993576119084240625174288361719408543858602324296239050nat);
    lemma_fundamental_div_mod_converse(12288494577845325817235993576119084240625174288361719408543858602324296239050int * 12288494577845325817235993576119084240625174288361719408543858602324296239050int, m, 6899005090263090782802842925839311249696720196577251030779741505991867008545int, 17672636849701159006278500697450377727473978655199104750491935874922331560765int);
    assert(mod_pow(3, 10880727251464815688947222049174364252392552888532nat, 21888242871839275222246405745257275088696311157297823662689037894645226208583nat) == 17672636849701159006278500697450377727473978655199104750491935874922331560765nat);
    lemma_fundamental_div_mod_converse(17672636849701159006278500697450377727473978655199104750491935874922331560765int * 17672636849701159006278500697450377727473978655199104750491935874922331560765int, m, 14268943151359083589987852865670306531340675361531856746936596473820486277862int, 3209758709646446416537043879901116390832854957157496984793594556924780095679int);
    lemma_fundamental_div_mod_converse(3209758709646446416537043879901116390832854957157496984793594556924780095679int * 3, m, 0int, 9629276128939339249611131639703349172498564871472490954380783670774340287037int);
    assert(mod_pow(3, 21761454502929631377894444098348728504785105777065nat, 21888242871839275222246405745257275088696311157297823662689037894645226208583nat) == 9629276128939339249611131639703349172498564871472490954380783670774340287037nat);
    lemma_fundamental_div_mod_converse(9629276128939339249611131639703349172498564871472490954380783670774340287037int * 9629276128939339249611131639703349172498564871472490954380783670774340287037int, m, 4236199283344732460531045681330982943610166118957669591317840424646668589893int, 2675847574448028307310163535179482782780287422716160705204364708168246587750int);
    lemma_fundamental_div_mod_converse(2675847574448028307310163535179482782780287422716160705204364708168246587750int * 3, m, 0int, 8027542723344084921930490605538448348340862268148482115613094124504739763250int);
    assert(mod_pow(3, 43522909005859262755788888196697457009570211554131nat, 21888242871839275222246405745257275088696311157297823662689037894645226208583nat) == 8027542723344084921930490605538448348340862268148482115613094124504739763250nat);
    lemma_fundamental_div_mod_converse(8027542723344084921930490605538448348340862268148482115613094124504739763250int * 8027542723344084921930490605538448348340862268148482115613094124504739763250int, m, 2944112167999693571989165183029178428455067342566075782960333035238391637076int, 7751123338123106002638719739506780312288897634564555670283185108224038339192int);
    lemma_fundamental_div_mod_converse(7751123338123106002638719739506780312288897634564555670283185108224038339192int * 3, m, 1int, 1365127142530042785669753473263065848170381746395843348160517430026888808993int);
    assert(mod_pow(3, 87045818011718525511577776393394914019140423108263nat, 21888242871839275222246405745257275088696311157297823662689037894645226208583nat) == 1365127142530042785669753473263065848170381746395843348160517430026888808993nat);
    lemma_fundamental_div_mod_converse(1365127142530042785669753473263065848170381746395843348160517430026888808993int * 1365127142530042785669753473263065848170381746395843348160517430026888808993int, m, 85140325159213808562776576860911266592272807686500724617940986021046192674int, 691261176353818500449270055497497241794497418210808064146077530909707153107int);
    lemma_fundamental_div_mod_converse(691261176353818500449270055497497241794497418210808064146077530909707153107int * 3, m, 0int, 2073783529061455501347810166492491725383492254632424192438232592729121459321int);
    assert(mod_pow(3, 174091636023437051023155552786789828038280846216527nat, 21888242871839275222246405745257275088696311157297823662689037894645226208583nat) == 2073783529061455501347810166492491725383492254632424192438232592729121459321nat);
    lemma_fundamental_div_mod_converse(2073783529061455501347810166492491725383492254632424192438232592729121459321int * 2073783529061455501347810166492491725383492254632424192438232592729121459321int, m, 196478911102524963030163984422759768217316386814017928781764144828807240479int, 9549128316023677734195810931211867591048777403409688990122569907980762949784int);
    lemma_fundamental_div_mod_converse(9549128316023677734195810931211867591048777403409688990122569907980762949784int * 3, m, 1int, 6759142076231757980341027048378327684450021052931243307678671829297062640769int);
    assert(mod_pow(3, 348183272046874102046311105573579656076561692433055nat, 21888242871839275222246405745257275088696311157297823662689037894645226208583nat) == 6759142076231757980341027048378327684450021052931243307678671829297062640769nat);
    lemma_fundamental_div_mod_converse(6759142076231757980341027048378327684450021052931243307678671829297062640769int * 6759142076231757980341027048378327684450021052931243307678671829297062640769int, m, 2087239340050668599317502479840412145170792181169882970321671664950492750536int, 4156084866467943970257349812928419659993677044658856512600268532681419860873int);
    lemma_fundamental_div_mod_converse(4156084866467943970257349812928419659993677044658856512600268532681419860873int * 3, m, 0int, 12468254599403831910772049438785258979981031133976569537800805598044259582619int);
    assert(mod_pow(3, 696366544093748204092622211147159312153123384866111nat, 21888242871839275222246405745257275088696311157297823662689037894645226208583nat) == 12468254599403831910772049438785258979981031133976569537800805598044259582619nat);
    lemma_fundamental_div_mod_converse(12468254599403831910772049438785258979981031133976569537800805598044259582619int * 12468254599403831910772049438785258979981031133976569537800805598044259582619int, m, 7102323090336382130893816138066650889748184148370909066196932722500732986784int, 5912915911329782559422711244056582376585982662016580819783120580526320532089int);
    assert(mod_pow(3, 1392733088187496408185244422294318624306246769732222nat, 21888242871839275222246405745257275088696311157297823662689037894645226208583nat) == 5912915911329782559422711244056582376585982662016580819783120580526320532089nat);
    lemma_fundamental_div_mod_converse(5912915911329782559422711244056582376585982662016580819783120580526320532089int * 5912915911329782559422711244056582376585982662016580819783120580526320532089int, m, 1597322123076341669072046536620782503724515965623048174970039915864603536070int, 10156707190123225314366911346145161776707406137707530261789597207546894615111int);
    lemma_fundamental_div_mod_converse(10156707190123225314366911346145161776707406137707530261789597207546894615111int * 3, m, 1int, 8581878698530400720854328293178210241425907255824767122679753727995457636750int);
    assert(mod_pow(3, 2785466176374992816370488844588637248612493539464445nat, 21888242871839275222246405745257275088696311157297823662689037894645226208583nat) == 8581878698530400720854328293178210241425907255824767122679753727995457636750nat);
    lemma_fundamental_div_mod_converse(8581878698530400720854328293178210241425907255824767122679753727995457636750int * 8581878698530400720854328293178210241425907255824767122679753727995457636750int, m, 3364758077088219386138724348808908704828399897238486005774364444103191013453int, 13673060844942379349823070273784649067350519850856679573220083859778413495401int);
    lemma_fundamental_div_mod_converse(13673060844942379349823070273784649067350519850856679573220083859778413495401int * 3, m, 1int, 19130939662987862827222805076096672113355248395272215056971213684690014277620int);
    assert(mod_pow(3, 5570932352749985632740977689177274497224987078928891nat, 21888242871839275222246405745257275088696311157297823662689037894645226208583nat) == 19130939662987862827222805076096672113355248395272215056971213684690014277620nat);
    lemma_fundamental_div_mod_converse(19130939662987862827222805076096672113355248395272215056971213684690014277620int * 19130939662987862827222805076096672113355248395272215056971213684690014277620int, m, 16720979136235602264763386734225883368861201015126694538466565173546040066508int, 1658024754299474158430026094095853440130406571411197675684511621084432426236int);
    lemma_fundamental_div_mod_converse(1658024754299474158430026094095853440130406571411197675684511621084432426236int * 3, m, 0int, 4974074262898422475290078282287560320391219714233593027053534863253297278708int);
    assert(mod_pow(3, 11141864705499971265481955378354548994449974157857783nat, 21888242871839275222246405745257275088696311157297823662689037894645226208583nat) == 4974074262898422475290078282287560320391219714233593027053534863253297278708nat);
    lemma_fundamental_div_mod_converse(4974074262898422475290078282287560320391219714233593027053534863253297278708int * 4974074262898422475290078282287560320391219714233593027053534863253297278708int, m, 1130351802001430222820338062354447314554517353334024879211952754983975284452int, 12792286997167153534895703621183216428354184132112531599081751612535321297748int);
    assert(mod_pow(3, 22283729410999942530963910756709097988899948315715566nat, 21888242871839275222246405745257275088696311157297823662689037894645226208583nat) == 12792286997167153534895703621183216428354184132112531599081751612535321297748nat);
    lemma_fundamental_div_mod_converse(12792286997167153534895703621183216428354184132112531599081751612535321297748int * 12792286997167153534895703621183216428354184132112531599081751612535321297748int, m, 7476278821285799064250295218833498455006131674106203863377801933639929953101int, 17298095799782825723389681497663520246162674189261150027180853743547636205621int);
    lemma_fundamental_div_mod_converse(17298095799782825723389681497663520246162674189261150027180853743547636205621int * 3, m, 2int, 8117801655669926725676233002476010561095400253187802756164485441352456199697int);
    assert(mod_pow(3, 44567458821999885061927821513418195977799896631431133nat, 21888242871839275222246405745257275088696311157297823662689037894645226208583nat) == 8117801655669926725676233002476010561095400253187802756164485441352456199697nat);
    lemma_fundamental_div_mod_converse(8117801655669926725676233002476010561095400253187802756164485441352456199697int * 8117801655669926725676233002476010561095400253187802756164485441352456199697int, m, 3010689533492914725204033884892685132534840998236006463197045747972077412822int, 13564168546194953766005944002816818313342416067496299558651248565540772240583int);
    assert(mod_pow(3, 89134917643999770123855643026836391955599793262862266nat, 21888242871839275222246405745257275088696311157297823662689037894645226208583nat) == 13564168546194953766005944002816818313342416067496299558651248565540772240583nat);
    lemma_fundamental_div_mod_converse(13564168546194953766005944002816818313342416067496299558651248565540772240583int * 13564168546194953766005944002816818313342416067496299558651248565540772240583int, m, 8405730392652759977416696757292569474449364691982309831455321419833022385484int, 3081151756638433448729058630281300741323358568559749828220697551550416770717int);
    assert(mod_pow(3, 178269835287999540247711286053672783911199586525724532nat, 21888242871839275222246405745257275088696311157297823662689037894645226208583nat) == 3081151756638433448729058630281300741323358568559749828220697551550416770717nat);
    lemma_fundamental_div_mod_converse(3081151756638433448729058630281300741323358568559749828220697551550416770717int * 3081151756638433448729058630281300741323358568559749828220697551550416770717int, m, 433725822717827100787995349192179406728461603977787478652945337818135466877int, 3363438333579407906897689308414415351750857132775812224122939711201259088798int);
    assert(mod_pow(3, 356539670575999080495422572107345567822399173051449064nat, 21888242871839275222246405745257275088696311157297823662689037894645226208583nat) == 3363438333579407906897689308414415351750857132775812224122939711201259088798nat);
    lemma_fundamental_div_mod_converse(3363438333579407906897689308414415351750857132775812224122939711201259088798int * 3363438333579407906897689308414415351750857132775812224122939711201259088798int, m, 516839907617527892607518373734313640003723667788170775461093211055769656618int, 18332592411827042776744464293362640594463325323724200911358978981193294732510int);
    assert(mod_pow(3, 713079341151998160990845144214691135644798346102898128nat, 21888242871839275222246405745257275088696311157297823662689037894645226208583nat) == 18332592411827042776744464293362640594463325323724200911358978981193294732510nat);
    lemma_fundamental_div_mod_converse(18332592411827042776744464293362640594463325323724200911358978981193294732510int * 18332592411827042776744464293362640594463325323724200911358978981193294732510int, m, 15354542002573148555914455036812159176794729784468091406539427069532698910908int, 4152573567793642492401990148141856806823980661909539091814018655650308976736int);
    assert(mod_pow(3, 1426158682303996321981690288429382271289596692205796256nat, 21888242871839275222246405745257275088696311157297823662689037894645226208583nat) == 4152573567793642492401990148141856806823980661909539091814018655650308976736nat);
    lemma_fundamental_div_mod_converse(4152573567793642492401990148141856806823980661909539091814018655650308976736int * 4152573567793642492401990148141856806823980661909539091814018655650308976736int, m, 787814140079916526129012390834943310592847260066486775734094310154853429551int, 13696242652181034070446097727788099909453531634500741481964425824156967177463int);
    lemma_fundamental_div_mod_converse(13696242652181034070446097727788099909453531634500741481964425824156967177463int * 3, m, 1int, 19200485084703826989091887438107024639664283746204400783204239577825675323806int);
    assert(mod_pow(3, 2852317364607992643963380576858764542579193384411592513nat, 21888242871839275222246405745257275088696311157297823662689037894645226208583nat) == 19200485084703826989091887438107024639664283746204400783204239577825675323806nat);
    lemma_fundamental_div_mod_converse(19200485084703826989091887438107024639664283746204400783204239577825675323806int * 19200485084703826989091887438107024639664283746204400783204239577825675323806int, m, 16842769410341234842922586064667227860271127271088226176983767515884171615552int, 20726498744393028974098426344175601462136745041256965277102672493820111642820int);
    lemma_fundamental_div_mod_converse(20726498744393028974098426344175601462136745041256965277102672493820111642820int * 3, m, 2int, 18403010489500536477802467542012254209017612809175248505929941692169882511294int);
    assert(mod_pow(3, 5704634729215985287926761153717529085158386768823185027nat, 21888242871839275222246405745257275088696311157297823662689037894645226208583nat) == 18403010489500536477802467542012254209017612809175248505929941692169882511294nat);
    lemma_fundamental_div_mod_converse(18403010489500536477802467542012254209017612809175248505929941692169882511294int * 18403010489500536477802467542012254209017612809175248505929941692169882511294int, m, 15472726479675075571237033091662599161702518696230046471606806131639238565694int, 3257349853157504251942984547994350177867498851264114203885899607781445402834int);
    assert(mod_pow(3, 11409269458431970575853522307435058170316773537646370054nat, 21888242871839275222246405745257275088696311157297823662689037894645226208583nat) == 3257349853157504251942984547994350177867498851264114203885899607781445402834nat);
    lemma_fundamental_div_mod_converse(3257349853157504251942984547994350177867498851264114203885899607781445402834int * 3257349853157504251942984547994350177867498851264114203885899607781445402834int, m, 484750106620761635068728964424447806944677433395863057281085073625556464531int, 17195973137312858523080479338954105712285136456617124743634344949469487961983int);
    assert(mod_pow(3, 22818538916863941151707044614870116340633547075292740108nat, 21888242871839275222246405745257275088696311157297823662689037894645226208583nat) == 17195973137312858523080479338954105712285136456617124743634344949469487961983nat);
    lemma_fundamental_div_mod_converse(17195973137312858523080479338954105712285136456617124743634344949469487961983int * 17195973137312858523080479338954105712285136456617124743634344949469487961983int, m, 13509603939913590446065770792659840866852379752679662434037138688107744451804int, 12182795633279458011996786334809830358419642463943332208139930167602158658557int);
    lemma_fundamental_div_mod_converse(12182795633279458011996786334809830358419642463943332208139930167602158658557int * 3, m, 1int, 14660144027999098813743953259172215986562616234532172961730752608161249767088int);
    assert(mod_pow(3, 45637077833727882303414089229740232681267094150585480217nat, 21888242871839275222246405745257275088696311157297823662689037894645226208583nat) == 14660144027999098813743953259172215986562616234532172961730752608161249767088nat);
    lemma_fundamental_div_mod_converse(14660144027999098813743953259172215986562616234532172961730752608161249767088int * 14660144027999098813743953259172215986562616234532172961730752608161249767088int, m, 9818961904803547549620828279293656634604633133361392017519657005458492418511int, 103172255504136882748545536535172710834118776013525785534163785031631719831int);
    assert(mod_pow(3, 91274155667455764606828178459480465362534188301170960434nat, 21888242871839275222246405745257275088696311157297823662689037894645226208583nat) == 103172255504136882748545536535172710834118776013525785534163785031631719831nat);
    lemma_fundamental_div_mod_converse(103172255504136882748545536535172710834118776013525785534163785031631719831int * 103172255504136882748545536535172710834118776013525785534163785031631719831int, m, 486311960632792528875850951134056881678619986970171317597558101278623837int, 12963228291744886591811548562159186892325529517677009321201864308615520875590int);
    assert(mod_pow(3, 182548311334911529213656356918960930725068376602341920868nat, 21888242871839275222246405745257275088696311157297823662689037894645226208583nat) == 12963228291744886591811548562159186892325529517677009321201864308615520875590nat);
    lemma_fundamental_div_mod_converse(12963228291744886591811548562159186892325529517677009321201864308615520875590int * 12963228291744886591811548562159186892325529517677009321201864308615520875590int, m, 7677422474149207831558138776068615006810926336281953206296460776132062446746int, 11642047710012778784097570344165703193725663593143696670309646584964332227182int);
    assert(mod_pow(3, 365096622669823058427312713837921861450136753204683841736nat, 21888242871839275222246405745257275088696311157297823662689037894645226208583nat) == 11642047710012778784097570344165703193725663593143696670309646584964332227182nat);
    lemma_fundamental_div_mod_converse(11642047710012778784097570344165703193725663593143696670309646584964332227182int * 11642047710012778784097570344165703193725663593143696670309646584964332227182int, m, 6192240997864281788770623121756161311566696476668668206240759751233077712326int, 13311657905835326174028740290022448278304495103710643369023264051492313567066int);
    lemma_fundamental_div_mod_converse(13311657905835326174028740290022448278304495103710643369023264051492313567066int * 3, m, 1int, 18046730845666703299839815124810069746217174153834106444380754259831714492615int);
    assert(mod_pow(3, 730193245339646116854625427675843722900273506409367683473nat, 21888242871839275222246405745257275088696311157297823662689037894645226208583nat) == 18046730845666703299839815124810069746217174153834106444380754259831714492615nat);
    lemma_fundamental_div_mod_converse(18046730845666703299839815124810069746217174153834106444380754259831714492615int * 18046730845666703299839815124810069746217174153834106444380754259831714492615int, m, 14879426188885790818454471064387485512155673479006132663434017445690892671083int, 10496921156677558414214494429534572934705031733661270002041783458161119032836int);
    lemma_fundamental_div_mod_converse(10496921156677558414214494429534572934705031733661270002041783458161119032836int * 3, m, 1int, 9602520598193400020397077543346443715418784043685986343436312479838130889925int);
    assert(mod_pow(3, 1460386490679292233709250855351687445800547012818735366947nat, 21888242871839275222246405745257275088696311157297823662689037894645226208583nat) == 9602520598193400020397077543346443715418784043685986343436312479838130889925nat);
    lemma_fundamental_div_mod_converse(9602520598193400020397077543346443715418784043685986343436312479838130889925int * 9602520598193400020397077543346443715418784043685986343436312479838130889925int, m, 4212690912588555124551383849874153916106958362394360546260334571242323893363int, 10500070499866022159173891177348722334374563751525533733281489417792779170996int);
    lemma_fundamental_div_mod_converse(10500070499866022159173891177348722334374563751525533733281489417792779170996int * 3, m, 1int, 9611968627758791255275267786788891914427380097278777537155430358733111304405int);
    assert(mod_pow(3, 2920772981358584467418501710703374891601094025637470733895nat, 21888242871839275222246405745257275088696311157297823662689037894645226208583nat) == 9611968627758791255275267786788891914427380097278777537155430358733111304405nat);
    lemma_fundamental_div_mod_converse(9611968627758791255275267786788891914427380097278777537155430358733111304405int * 9611968627758791255275267786788891914427380097278777537155430358733111304405int, m, 4220984820114784655473629760457827114546890855184501387372861328336812114971int, 6379625944734927317217143511213487310843184080907478496198345380840749407932int);
    lemma_fundamental_div_mod_converse(6379625944734927317217143511213487310843184080907478496198345380840749407932int * 3, m, 0int, 19138877834204781951651430533640461932529552242722435488595036142522248223796int);
    assert(mod_pow(3, 5841545962717168934837003421406749783202188051274941467791nat, 21888242871839275222246405745257275088696311157297823662689037894645226208583nat) == 19138877834204781951651430533640461932529552242722435488595036142522248223796nat);
    lemma_fundamental_div_mod_converse(19138877834204781951651430533640461932529552242722435488595036142522248223796int * 19138877834204781951651430533640461932529552242722435488595036142522248223796int, m, 16734858384812645981553985589473303920847947697966741141903557103217861581465int, 18526819718635356692418152411289113544498237463524516419939825358518563935521int);
    lemma_fundamental_div_mod_converse(18526819718635356692418152411289113544498237463524516419939825358518563935521int * 3, m, 2int, 11803973412227519632761645743352790456102090075977901934441400286265239389397int);
    assert(mod_pow(3, 11683091925434337869674006842813499566404376102549882935583nat, 21888242871839275222246405745257275088696311157297823662689037894645226208583nat) == 11803973412227519632761645743352790456102090075977901934441400286265239389397nat);
    lemma_fundamental_div_mod_converse(11803973412227519632761645743352790456102090075977901934441400286265239389397int * 11803973412227519632761645743352790456102090075977901934441400286265239389397int, m, 6365690893161490929830548971730623302122933905358896516172626429119008495173int, 3119263872544118142304150513518629922191864803500902745161342873050349353750int);
    lemma_fundamental_div_mod_converse(3119263872544118142304150513518629922191864803500902745161342873050349353750int * 3, m, 0int, 9357791617632354426912451540555889766575594410502708235484028619151048061250int);
    assert(mod_pow(3, 23366183850868675739348013685626999132808752205099765871167nat, 21888242871839275222246405745257275088696311157297823662689037894645226208583nat) == 9357791617632354426912451540555889766575594410502708235484028619151048061250nat);
    lemma_fundamental_div_mod_converse(9357791617632354426912451540555889766575594410502708235484028619151048061250int * 9357791617632354426912451540555889766575594410502708235484028619151048061250int, m, 4000698661457787939830848453465349409951670946405954323653549357514300881347int, 4705798558754807767348372970574111802729139814435402242256642215963595561199int);
    lemma_fundamental_div_mod_converse(4705798558754807767348372970574111802729139814435402242256642215963595561199int * 3, m, 0int, 14117395676264423302045118911722335408187419443306206726769926647890786683597int);
    assert(mod_pow(3, 46732367701737351478696027371253998265617504410199531742335nat, 21888242871839275222246405745257275088696311157297823662689037894645226208583nat) == 14117395676264423302045118911722335408187419443306206726769926647890786683597nat);
    lemma_fundamental_div_mod_converse(14117395676264423302045118911722335408187419443306206726769926647890786683597int * 14117395676264423302045118911722335408187419443306206726769926647890786683597int, m, 9105384194024256374710897606647866569842952747565291888427104938915734978152int, 235458737071440495976421759097492274675516451853485086013551429890488979793int);
    assert(mod_pow(3, 93464735403474702957392054742507996531235008820399063484670nat, 21888242871839275222246405745257275088696311157297823662689037894645226208583nat) == 235458737071440495976421759097492274675516451853485086013551429890488979793nat);
    lemma_fundamental_div_mod_converse(235458737071440495976421759097492274675516451853485086013551429890488979793int * 235458737071440495976421759097492274675516451853485086013551429890488979793int, m, 2532903951582434146901069264108001182327716278129309348572954744000039953int, 17265210334569601305902237995918129146266158654538642856689403398303250806250int);
    lemma_fundamental_div_mod_converse(17265210334569601305902237995918129146266158654538642856689403398303250806250int * 3, m, 2int, 8019145260030253473213902497239837261405853649020281244690134405619300001584int);
    assert(mod_pow(3, 186929470806949405914784109485015993062470017640798126969341nat, 21888242871839275222246405745257275088696311157297823662689037894645226208583nat) == 8019145260030253473213902497239837261405853649020281244690134405619300001584nat);
    lemma_fundamental_div_mod_converse(8019145260030253473213902497239837261405853649020281244690134405619300001584int * 8019145260030253473213902497239837261405853649020281244690134405619300001584int, m, 2937955827610111502516730383294402638221040408000344238375226867173272476916int, 4687951540234050649969854177051575022980661508236092001826489304646333939028int);
    lemma_fundamental_div_mod_converse(4687951540234050649969854177051575022980661508236092001826489304646333939028int * 3, m, 0int, 14063854620702151949909562531154725068941984524708276005479467913939001817084int);
    assert(mod_pow(3, 373858941613898811829568218970031986124940035281596253938683nat, 21888242871839275222246405745257275088696311157297823662689037894645226208583nat) == 14063854620702151949909562531154725068941984524708276005479467913939001817084nat);
    lemma_fundamental_div_mod_converse(14063854620702151949909562531154725068941984524708276005479467913939001817084int * 14063854620702151949909562531154725068941984524708276005479467913939001817084int, m, 9036449748404347460099859220792013949495503601384037449794484828764161647276int, 18643249754395143611923344864332529182172929134931724368830985986620544493148int);
    assert(mod_pow(3, 747717883227797623659136437940063972249880070563192507877366nat, 21888242871839275222246405745257275088696311157297823662689037894645226208583nat) == 18643249754395143611923344864332529182172929134931724368830985986620544493148nat);
    lemma_fundamental_div_mod_converse(18643249754395143611923344864332529182172929134931724368830985986620544493148int * 18643249754395143611923344864332529182172929134931724368830985986620544493148int, m, 15879335926591357010660702076696502668905349905281109682869300650066333864034int, 11949184027393769602732245341772980857098716709639030654089984894990173146082int);
    assert(mod_pow(3, 1495435766455595247318272875880127944499760141126385015754732nat, 21888242871839275222246405745257275088696311157297823662689037894645226208583nat) == 11949184027393769602732245341772980857098716709639030654089984894990173146082nat);
    lemma_fundamental_div_mod_converse(11949184027393769602732245341772980857098716709639030654089984894990173146082int * 11949184027393769602732245341772980857098716709639030654089984894990173146082int, m, 6523273693395576433108782331315167354611304196777695677018129511443832570982int, 7033008764487001860835935764536623845804112285389981714704437996564626812218int);
    lemma_fundamental_div_mod_converse(7033008764487001860835935764536623845804112285389981714704437996564626812218int * 3, m, 0int, 21099026293461005582507807293609871537412336856169945144113313989693880436654int);
    assert(mod_pow(3, 2990871532911190494636545751760255888999520282252770031509465nat, 21888242871839275222246405745257275088696311157297823662689037894645226208583nat) == 21099026293461005582507807293609871537412336856169945144113313989693880436654nat);
    lemma_fundamental_div_mod_converse(21099026293461005582507807293609871537412336856169945144113313989693880436654int * 21099026293461005582507807293609871537412336856169945144113313989693880436654int, m, 20338266216193131566226145058203995251824691108820465953076628179857325050207int, 1520724454615759976284174788460962255772492075241202505089569899852977389035int);
    lemma_fundamental_div_mod_converse(1520724454615759976284174788460962255772492075241202505089569899852977389035int * 3, m, 0int, 4562173363847279928852524365382886767317476225723607515268709699558932167105int);
    assert(mod_pow(3, 5981743065822380989273091503520511777999040564505540063018931nat, 21888242871839275222246405745257275088696311157297823662689037894645226208583nat) == 4562173363847279928852524365382886767317476225723607515268709699558932167105nat);
    lemma_fundamental_div_mod_converse(4562173363847279928852524365382886767317476225723607515268709699558932167105int * 4562173363847279928852524365382886767317476225723607515268709699558932167105int, m, 950895232827277540796836391871678761972849088194301096942239603342121088515int, 6173071743821828258830517769371396490039961250106066168259877436869248356780int);
    lemma_fundamental_div_mod_converse(6173071743821828258830517769371396490039961250106066168259877436869248356780int * 3, m, 0int, 18519215231465484776491553308114189470119883750318198504779632310607745070340int);
    assert(mod_pow(3, 11963486131644761978546183007041023555998081129011080126037863nat, 21888242871839275222246405745257275088696311157297823662689037894645226208583nat) == 18519215231465484776491553308114189470119883750318198504779632310607745070340nat);
    lemma_fundamental_div_mod_converse(18519215231465484776491553308114189470119883750318198504779632310607745070340int * 18519215231465484776491553308114189470119883750318198504779632310607745070340int, m, 15668746678180662537466869571650903330196756692619741768185258414202802167911int, 12930152406617175732731900045376308532486700408126845543724580632944072335487int);
    assert(mod_pow(3, 23926972263289523957092366014082047111996162258022160252075726nat, 21888242871839275222246405745257275088696311157297823662689037894645226208583nat) == 12930152406617175732731900045376308532486700408126845543724580632944072335487nat);
    lemma_fundamental_div_mod_converse(12930152406617175732731900045376308532486700408126845543724580632944072335487int * 12930152406617175732731900045376308532486700408126845543724580632944072335487int, m, 7638294322540063076325137322947628200028108098538874530242113897933841698004int, 20567438601893676233752465734772580938496094701506923805881270453046880758837int);
    lemma_fundamental_div_mod_converse(20567438601893676233752465734772580938496094701506923805881270453046880758837int * 3, m, 2int, 17925830062002478256764585713803192638095661789925124092265735569850189859345int);
    assert(mod_pow(3, 47853944526579047914184732028164094223992324516044320504151453nat, 21888242871839275222246405745257275088696311157297823662689037894645226208583nat) == 17925830062002478256764585713803192638095661789925124092265735569850189859345nat);
    lemma_fundamental_div_mod_converse(17925830062002478256764585713803192638095661789925124092265735569850189859345int * 17925830062002478256764585713803192638095661789925124092265735569850189859345int, m, 14680729983365259989018493833389785513245786277966159444077862216475765277616int, 13257668168690233729097733749390407183410793715211603965589074659460766850897int);
    lemma_fundamental_div_mod_converse(13257668168690233729097733749390407183410793715211603965589074659460766850897int * 3, m, 1int, 17884761634231425965046795502913946461536069988336988234078186083737074344108int);
    assert(mod_pow(3, 95707889053158095828369464056328188447984649032088641008302907nat, 21888242871839275222246405745257275088696311157297823662689037894645226208583nat) == 17884761634231425965046795502913946461536069988336988234078186083737074344108nat);
    lemma_fundamental_div_mod_converse(17884761634231425965046795502913946461536069988336988234078186083737074344108int * 17884761634231425965046795502913946461536069988336988234078186083737074344108int, m, 14613539359287912796480834681102029543027132588924596140236081937237999087064int, 11171839738180351034134554728638286038736079798495952786970769590718353245352int);
    lemma_fundamental_div_mod_converse(11171839738180351034134554728638286038736079798495952786970769590718353245352int * 3, m, 1int, 11627276342701777880157258440657583027511928238190034698223270877509833527473int);
    assert(mod_pow(3, 191415778106316191656738928112656376895969298064177282016605815nat, 21888242871839275222246405745257275088696311157297823662689037894645226208583nat) == 11627276342701777880157258440657583027511928238190034698223270877509833527473nat);
    lemma_fundamental_div_mod_converse(11627276342701777880157258440657583027511928238190034698223270877509833527473int * 11627276342701777880157258440657583027511928238190034698223270877509833527473int, m, 6176537602453607966549813549192147933225425918677623829774546269213555798497int, 11850042865062668022647730941004770423662518891124766548099363047427805865978int);
    lemma_fundamental_div_mod_converse(11850042865062668022647730941004770423662518891124766548099363047427805865978int * 3, m, 1int, 13661885723348728845696787077757036182291245516076475981609051247638191389351int);
    assert(mod_pow(3, 382831556212632383313477856225312753791938596128354564033211631nat, 21888242871839275222246405745257275088696311157297823662689037894645226208583nat) == 13661885723348728845696787077757036182291245516076475981609051247638191389351nat);
    lemma_fundamental_div_mod_converse(13661885723348728845696787077757036182291245516076475981609051247638191389351int * 13661885723348728845696787077757036182291245516076475981609051247638191389351int, m, 8527277525688191970402377592683721822956795708844532431541974689694627947453int, 21881113500128836666148721776686817104006038073682582721895894255869134612102int);
    assert(mod_pow(3, 765663112425264766626955712450625507583877192256709128066423262nat, 21888242871839275222246405745257275088696311157297823662689037894645226208583nat) == 21881113500128836666148721776686817104006038073682582721895894255869134612102nat);
    lemma_fundamental_div_mod_converse(21881113500128836666148721776686817104006038073682582721895894255869134612102int * 21881113500128836666148721776686817104006038073682582721895894255869134612102int, m, 21873986450575607494602094508020020155190490810993484110292966034389320315560int, 18716641709828287344146893803777514241282223137026709659569750378578064406924int);
    assert(mod_pow(3, 1531326224850529533253911424901251015167754384513418256132846524nat, 21888242871839275222246405745257275088696311157297823662689037894645226208583nat) == 18716641709828287344146893803777514241282223137026709659569750378578064406924nat);
    lemma_fundamental_div_mod_converse(18716641709828287344146893803777514241282223137026709659569750378578064406924int * 18716641709828287344146893803777514241282223137026709659569750378578064406924int, m, 16004604798349767330557246278955471159777485595155178990593269900483165448296int, 17664020632018949765963186533806027918779847368673428248139802450062261217208int);
    assert(mod_pow(3, 3062652449701059066507822849802502030335508769026836512265693048nat, 21888242871839275222246405745257275088696311157297823662689037894645226208583nat) == 17664020632018949765963186533806027918779847368673428248139802450062261217208nat);
    lemma_fundamental_div_mod_converse(17664020632018949765963186533806027918779847368673428248139802450062261217208int * 17664020632018949765963186533806027918779847368673428248139802450062261217208int, m, 14255033020024791442377439450634613966967093349704568106788013492454201954323int, 20291743309106236310597775209807910853966247959279815853320255851403518760955int);
    assert(mod_pow(3, 6125304899402118133015645699605004060671017538053673024531386096nat, 21888242871839275222246405745257275088696311157297823662689037894645226208583nat) == 20291743309106236310597775209807910853966247959279815853320255851403518760955nat);
    lemma_fundamental_div_mod_converse(20291743309106236310597775209807910853966247959279815853320255851403518760955int * 20291743309106236310597775209807910853966247959279815853320255851403518760955int, m, 18811690318568629510048282492612671912582074178307655801692316566887266804131int, 4038329402065852464556995269683286943700760822305193329640763729658020455652int);
    assert(mod_pow(3, 12250609798804236266031291399210008121342035076107346049062772192nat, 21888242871839275222246405745257275088696311157297823662689037894645226208583nat) == 4038329402065852464556995269683286943700760822305193329640763729658020455652nat);
    lemma_fundamental_div_mod_converse(4038329402065852464556995269683286943700760822305193329640763729658020455652int * 4038329402065852464556995269683286943700760822305193329640763729658020455652int, m, 745062290064911495679467222454543396843473070784480390123725621215731196588int, 19357437964832254752669923180508034685013219549264804818002079909916632830300int);
    assert(mod_pow(3, 24501219597608472532062582798420016242684070152214692098125544384nat, 21888242871839275222246405745257275088696311157297823662689037894645226208583nat) == 19357437964832254752669923180508034685013219549264804818002079909916632830300nat);
    lemma_fundamental_div_mod_converse(19357437964832254752669923180508034685013219549264804818002079909916632830300int * 19357437964832254752669923180508034685013219549264804818002079909916632830300int, m, 17119254695607372150921357904996539690028602155564717579463557337673110923101int, 10815889799807411568017422155475996848941230337986527638528809350527098914117int);
    assert(mod_pow(3, 49002439195216945064125165596840032485368140304429384196251088768nat, 21888242871839275222246405745257275088696311157297823662689037894645226208583nat) == 10815889799807411568017422155475996848941230337986527638528809350527098914117nat);
    lemma_fundamental_div_mod_converse(10815889799807411568017422155475996848941230337986527638528809350527098914117int * 10815889799807411568017422155475996848941230337986527638528809350527098914117int, m, 5344580323169077451129808455084425316199080441107071104740201135112786392777int, 12538647001216761326455099545127380235376702687856364335089483229063775284698int);
    assert(mod_pow(3, 98004878390433890128250331193680064970736280608858768392502177536nat, 21888242871839275222246405745257275088696311157297823662689037894645226208583nat) == 12538647001216761326455099545127380235376702687856364335089483229063775284698nat);
    lemma_fundamental_div_mod_converse(12538647001216761326455099545127380235376702687856364335089483229063775284698int * 12538647001216761326455099545127380235376702687856364335089483229063775284698int, m, 7182745071939666232070364083361476292548276599755001223224823582056931136449int, 2369683352549497610973357346490437906330063387369930414921682589001245009437int);
    assert(mod_pow(3, 196009756780867780256500662387360129941472561217717536785004355072nat, 21888242871839275222246405745257275088696311157297823662689037894645226208583nat) == 2369683352549497610973357346490437906330063387369930414921682589001245009437nat);
    lemma_fundamental_div_mod_converse(2369683352549497610973357346490437906330063387369930414921682589001245009437int * 2369683352549497610973357346490437906330063387369930414921682589001245009437int, m, 256548651448619594367944208389369141203032891174021374131558542559799083044int, 1431670357565220834685330305377789286487216015135772842115459591778136490317int);
    lemma_fundamental_div_mod_converse(1431670357565220834685330305377789286487216015135772842115459591778136490317int * 3, m, 0int, 4295011072695662504055990916133367859461648045407318526346378775334409470951int);
    assert(mod_pow(3, 392019513561735560513001324774720259882945122435435073570008710145nat, 21888242871839275222246405745257275088696311157297823662689037894645226208583nat) == 4295011072695662504055990916133367859461648045407318526346378775334409470951nat);
    lemma_fundamental_div_mod_converse(4295011072695662504055990916133367859461648045407318526346378775334409470951int * 4295011072695662504055990916133367859461648045407318526346378775334409470951int, m, 842786706205267393979413965399391020351244559521532746687306158864544684612int, 10373997535165678175953217515332253200283148219602691520778694066941450419605int);
    lemma_fundamental_div_mod_converse(10373997535165678175953217515332253200283148219602691520778694066941450419605int * 3, m, 1int, 9233749733657759305613246800739484512153133501510250899647044306179125050232int);
    assert(mod_pow(3, 784039027123471121026002649549440519765890244870870147140017420291nat, 21888242871839275222246405745257275088696311157297823662689037894645226208583nat) == 9233749733657759305613246800739484512153133501510250899647044306179125050232nat);
    lemma_fundamental_div_mod_converse(9233749733657759305613246800739484512153133501510250899647044306179125050232int * 9233749733657759305613246800739484512153133501510250899647044306179125050232int, m, 3895339367488484914355268058396366830293801403747475341033435200278736726251int, 10605939756040728562432631813957449207880431259640003486738823538846225641491int);
    lemma_fundamental_div_mod_converse(10605939756040728562432631813957449207880431259640003486738823538846225641491int * 3, m, 1int, 9929576396282910465051489696615072534944982621622186797527432721893450715890int);
    assert(mod_pow(3, 1568078054246942242052005299098881039531780489741740294280034840583nat, 21888242871839275222246405745257275088696311157297823662689037894645226208583nat) == 9929576396282910465051489696615072534944982621622186797527432721893450715890nat);
    lemma_fundamental_div_mod_converse(9929576396282910465051489696615072534944982621622186797527432721893450715890int * 9929576396282910465051489696615072534944982621622186797527432721893450715890int, m, 4504540998878893576584401489121029096223886874148267398341436409459979603605int, 21736265374405896061574875630593797149728347582360412937776053127788109750385int);
    assert(mod_pow(3, 3136156108493884484104010598197762079063560979483480588560069681166nat, 21888242871839275222246405745257275088696311157297823662689037894645226208583nat) == 21736265374405896061574875630593797149728347582360412937776053127788109750385nat);
    lemma_fundamental_div_mod_converse(21736265374405896061574875630593797149728347582360412937776053127788109750385int * 21736265374405896061574875630593797149728347582360412937776053127788109750385int, m, 21585343108306587524203358421533674138871880152797605913331157150236105200638int, 17075424818700983359464464885382517226856027881872813185006328185521754972271int);
    assert(mod_pow(3, 6272312216987768968208021196395524158127121958966961177120139362332nat, 21888242871839275222246405745257275088696311157297823662689037894645226208583nat) == 17075424818700983359464464885382517226856027881872813185006328185521754972271nat);
    lemma_fundamental_div_mod_converse(17075424818700983359464464885382517226856027881872813185006328185521754972271int * 17075424818700983359464464885382517226856027881872813185006328185521754972271int, m, 13320856061691204632431099477060871848649327267311532145550383257482731894920int, 13435899902372732507312073000767482477922184144638109210179503727193220799081int);
    assert(mod_pow(3, 12544624433975537936416042392791048316254243917933922354240278724664nat, 21888242871839275222246405745257275088696311157297823662689037894645226208583nat) == 13435899902372732507312073000767482477922184144638109210179503727193220799081nat);
    lemma_fundamental_div_mod_converse(13435899902372732507312073000767482477922184144638109210179503727193220799081int * 13435899902372732507312073000767482477922184144638109210179503727193220799081int, m, 8247505624073430713964650957855628855756877938791896808323078371987430142256int, 7282101577019512155598707812749664274569091082240650934437312886088952261313int);
    assert(mod_pow(3, 25089248867951075872832084785582096632508487835867844708480557449328nat, 21888242871839275222246405745257275088696311157297823662689037894645226208583nat) == 7282101577019512155598707812749664274569091082240650934437312886088952261313nat);
    lemma_fundamental_div_mod_converse(7282101577019512155598707812749664274569091082240650934437312886088952261313int * 7282101577019512155598707812749664274569091082240650934437312886088952261313int, m, 2422716327140883183012231262085872685807569735387112474094445843085818329957int, 17063432256838569078281311157052424499218423383651105447084966736616237063038int);
    assert(mod_pow(3, 50178497735902151745664169571164193265016975671735689416961114898656nat, 21888242871839275222246405745257275088696311157297823662689037894645226208583nat) == 17063432256838569078281311157052424499218423383651105447084966736616237063038nat);
    lemma_fundamental_div_mod_converse(17063432256838569078281311157052424499218423383651105447084966736616237063038int * 17063432256838569078281311157052424499218423383651105447084966736616237063038int, m, 13302151391892549180101624203919932855035907600389383818958344831043662578097int, 13290065164924702124385028066526635313189810985478608232892793884213536582893int);
    lemma_fundamental_div_mod_converse(13290065164924702124385028066526635313189810985478608232892793884213536582893int * 3, m, 1int, 17981952622934831150908678454322630850873121799138001035989343757995383540096int);
    assert(mod_pow(3, 100356995471804303491328339142328386530033951343471378833922229797313nat, 21888242871839275222246405745257275088696311157297823662689037894645226208583nat) == 17981952622934831150908678454322630850873121799138001035989343757995383540096nat);
    lemma_fundamental_div_mod_converse(17981952622934831150908678454322630850873121799138001035989343757995383540096int * 17981952622934831150908678454322630850873121799138001035989343757995383540096int, m, 14772799352911310692262323921998799544001512471236334160660852561546743991735int, 20441838425372889654025902025418790129172086925315246948454863232336101627711int);
    lemma_fundamental_div_mod_converse(20441838425372889654025902025418790129172086925315246948454863232336101627711int * 3, m, 2int, 17549029532440118517584894585741820210123638461350093519986513907717852465967int);
    assert(mod_pow(3, 200713990943608606982656678284656773060067902686942757667844459594627nat, 21888242871839275222246405745257275088696311157297823662689037894645226208583nat) == 17549029532440118517584894585741820210123638461350093519986513907717852465967nat);
    lemma_fundamental_div_mod_converse(17549029532440118517584894585741820210123638461350093519986513907717852465967int * 17549029532440118517584894585741820210123638461350093519986513907717852465967int, m, 14070039305287403825271073627700191185278533479409469845805399929027111404434int, 17883866616306774350904165803740980571618948353006016405925567737592738188067int);
    lemma_fundamental_div_mod_converse(17883866616306774350904165803740980571618948353006016405925567737592738188067int * 3, m, 2int, 9875114105241772608219685920708391537464222744422401892398627423487762147035int);
    assert(mod_pow(3, 401427981887217213965313356569313546120135805373885515335688919189255nat, 21888242871839275222246405745257275088696311157297823662689037894645226208583nat) == 9875114105241772608219685920708391537464222744422401892398627423487762147035nat);
    lemma_fundamental_div_mod_converse(9875114105241772608219685920708391537464222744422401892398627423487762147035int * 9875114105241772608219685920708391537464222744422401892398627423487762147035int, m, 4455262999526035520854248245349700324441385147422862064340708375055581853227int, 5200268961188943781509039499067511357238695190216266349193158703518965643884int);
    lemma_fundamental_div_mod_converse(5200268961188943781509039499067511357238695190216266349193158703518965643884int * 3, m, 0int, 15600806883566831344527118497202534071716085570648799047579476110556896931652int);
    assert(mod_pow(3, 802855963774434427930626713138627092240271610747771030671377838378511nat, 21888242871839275222246405745257275088696311157297823662689037894645226208583nat) == 15600806883566831344527118497202534071716085570648799047579476110556896931652nat);
    lemma_fundamental_div_mod_converse(15600806883566831344527118497202534071716085570648799047579476110556896931652int * 15600806883566831344527118497202534071716085570648799047579476110556896931652int, m, 11119447862645838022579182116045581504805566586625966716986055711470410726917int, 11839779305449954612036237404081131148594588812425634611843369806983464920493int);
    assert(mod_pow(3, 1605711927548868855861253426277254184480543221495542061342755676757022nat, 21888242871839275222246405745257275088696311157297823662689037894645226208583nat) == 11839779305449954612036237404081131148594588812425634611843369806983464920493nat);
    lemma_fundamental_div_mod_converse(11839779305449954612036237404081131148594588812425634611843369806983464920493int * 11839779305449954612036237404081131148594588812425634611843369806983464920493int, m, 6404368538057144340639866602428988348103821246080785456043706874299991173004int, 1574766338507257165808503326585633691538961805249789466314038272565068669717int);
    assert(mod_pow(3, 3211423855097737711722506852554508368961086442991084122685511353514044nat, 21888242871839275222246405745257275088696311157297823662689037894645226208583nat) == 1574766338507257165808503326585633691538961805249789466314038272565068669717nat);
    lemma_fundamental_div_mod_converse(1574766338507257165808503326585633691538961805249789466314038272565068669717int * 1574766338507257165808503326585633691538961805249789466314038272565068669717int, m, 113297766084554026570482385163737056598571490291051936757556028251590155974int, 17750359975751929900022200759722126912498791417906953164407390007830405335247int);
    assert(mod_pow(3, 6422847710195475423445013705109016737922172885982168245371022707028088nat, 21888242871839275222246405745257275088696311157297823662689037894645226208583nat) == 17750359975751929900022200759722126912498791417906953164407390007830405335247nat);
    lemma_fundamental_div_mod_converse(17750359975751929900022200759722126912498791417906953164407390007830405335247int * 17750359975751929900022200759722126912498791417906953164407390007830405335247int, m, 14394726936904651992388707414014701062764992738712424596508504119449789587903int, 7301205262520233966987239341487231595055139801346953696562694142919768979560int);
    lemma_fundamental_div_mod_converse(7301205262520233966987239341487231595055139801346953696562694142919768979560int * 3, m, 1int, 15372915721426678715312279204419696469108246743037426999044534114080730097int);
    assert(mod_pow(3, 12845695420390950846890027410218033475844345771964336490742045414056177nat, 21888242871839275222246405745257275088696311157297823662689037894645226208583nat) == 15372915721426678715312279204419696469108246743037426999044534114080730097nat);
    lemma_fundamental_div_mod_converse(15372915721426678715312279204419696469108246743037426999044534114080730097int * 15372915721426678715312279204419696469108246743037426999044534114080730097int, m, 10796962513703547738233054937538720812928476742526023320861464608560465int, 5420917096893169754007280000881773317607665252787943784414661958427104158314int);
    assert(mod_pow(3, 25691390840781901693780054820436066951688691543928672981484090828112354nat, 21888242871839275222246405745257275088696311157297823662689037894645226208583nat) == 5420917096893169754007280000881773317607665252787943784414661958427104158314nat);
    lemma_fundamental_div_mod_converse(5420917096893169754007280000881773317607665252787943784414661958427104158314int * 5420917096893169754007280000881773317607665252787943784414661958427104158314int, m, 1342562870096631423835135625569919187169558578062850507129244769478739788702int, 19305223187919758359804289414279277404086492951734274971086214996092376493330int);
    assert(mod_pow(3, 51382781681563803387560109640872133903377383087857345962968181656224708nat, 21888242871839275222246405745257275088696311157297823662689037894645226208583nat) == 19305223187919758359804289414279277404086492951734274971086214996092376493330nat);
    lemma_fundamental_div_mod_converse(19305223187919758359804289414279277404086492951734274971086214996092376493330int * 19305223187919758359804289414279277404086492951734274971086214996092376493330int, m, 17027024257615857401736072800193019415600601139016556678509596765289750952636int, 9860701787346202346443228167268373723764512616164255605543238698308844814112int);
    assert(mod_pow(3, 102765563363127606775120219281744267806754766175714691925936363312449416nat, 21888242871839275222246405745257275088696311157297823662689037894645226208583nat) == 9860701787346202346443228167268373723764512616164255605543238698308844814112nat);
    lemma_fundamental_div_mod_converse(9860701787346202346443228167268373723764512616164255605543238698308844814112int * 9860701787346202346443228167268373723764512616164255605543238698308844814112int, m, 4442267947605336316107069610804811075111003112645641635551261956529251692035int, 6714059401109790582790646326151281099828354898583426221746326279995244612139int);
    lemma_fundamental_div_mod_converse(6714059401109790582790646326151281099828354898583426221746326279995244612139int * 3, m, 0int, 20142178203329371748371938978453843299485064695750278665238978839985733836417int);
    assert(mod_pow(3, 205531126726255213550240438563488535613509532351429383851872726624898833nat, 21888242871839275222246405745257275088696311157297823662689037894645226208583nat) == 20142178203329371748371938978453843299485064695750278665238978839985733836417nat);
    lemma_fundamental_div_mod_converse(20142178203329371748371938978453843299485064695750278665238978839985733836417int * 20142178203329371748371938978453843299485064695750278665238978839985733836417int, m, 18535400267174810257611007047460329057133427279313514393276587989879706097679int, 13396219096936097924129625267478914380180584138529325611199968297609489219032int);
    lemma_fundamental_div_mod_converse(13396219096936097924129625267478914380180584138529325611199968297609489219032int * 3, m, 1int, 18300414418969018550142470057179468051845441258290153170910866998183241448513int);
    assert(mod_pow(3, 411062253452510427100480877126977071227019064702858767703745453249797667nat, 21888242871839275222246405745257275088696311157297823662689037894645226208583nat) == 18300414418969018550142470057179468051845441258290153170910866998183241448513nat);
    lemma_fundamental_div_mod_converse(18300414418969018550142470057179468051845441258290153170910866998183241448513int * 18300414418969018550142470057179468051845441258290153170910866998183241448513int, m, 15300687673604335563379143542230857457071268691756980049154698154211781682003int, 8177682550630495857145925789323190438823091534741553461012207211016174679420int);
    lemma_fundamental_div_mod_converse(8177682550630495857145925789323190438823091534741553461012207211016174679420int * 3, m, 1int, 2644804780052212349191371622712296227772963446926836720347583738403297829677int);
    assert(mod_pow(3, 822124506905020854200961754253954142454038129405717535407490906499595335nat, 21888242871839275222246405745257275088696311157297823662689037894645226208583nat) == 2644804780052212349191371622712296227772963446926836720347583738403297829677nat);
    lemma_fundamental_div_mod_converse(2644804780052212349191371622712296227772963446926836720347583738403297829677int * 2644804780052212349191371622712296227772963446926836720347583738403297829677int, m, 319577609109343739816420473872166696503666957588294808576592210462986832492int, 9209926922344495944957951311440684856816102021605276741944495843512828245493int);
    assert(mod_pow(3, 1644249013810041708401923508507908284908076258811435070814981812999190670nat, 21888242871839275222246405745257275088696311157297823662689037894645226208583nat) == 9209926922344495944957951311440684856816102021605276741944495843512828245493nat);
    lemma_fundamental_div_mod_converse(9209926922344495944957951311440684856816102021605276741944495843512828245493int * 9209926922344495944957951311440684856816102021605276741944495843512828245493int, m, 3875265566614131740205638475432478987908689456308906816156343772753198741188int, 17904048132046458702072025613581416607527456978228363666497639339207153596445int);
    lemma_fundamental_div_mod_converse(17904048132046458702072025613581416607527456978228363666497639339207153596445int * 3, m, 2int, 9935658652460825661723265350229699645189748620089443674114842228331008372169int);
    assert(mod_pow(3, 3288498027620083416803847017015816569816152517622870141629963625998381341nat, 21888242871839275222246405745257275088696311157297823662689037894645226208583nat) == 9935658652460825661723265350229699645189748620089443674114842228331008372169nat);
    lemma_fundamental_div_mod_converse(9935658652460825661723265350229699645189748620089443674114842228331008372169int * 9935658652460825661723265350229699645189748620089443674114842228331008372169int, m, 4510061106148737941465675220442224712076910215356283431912060541733440449737int, 11447077310860290682975822809167866491618354347473432445628689623756324271890int);
    assert(mod_pow(3, 6576996055240166833607694034031633139632305035245740283259927251996762682nat, 21888242871839275222246405745257275088696311157297823662689037894645226208583nat) == 11447077310860290682975822809167866491618354347473432445628689623756324271890nat);
    lemma_fundamental_div_mod_converse(11447077310860290682975822809167866491618354347473432445628689623756324271890int * 11447077310860290682975822809167866491618354347473432445628689623756324271890int, m, 5986573692920719467299694984381713461979691560013069165475765764437059660575int, 1181816307464107549857040862260246728370433352116121111304070010558512456875int);
    lemma_fundamental_div_mod_converse(1181816307464107549857040862260246728370433352116121111304070010558512456875int * 3, m, 0int, 3545448922392322649571122586780740185111300056348363333912210031675537370625int);
    assert(mod_pow(3, 13153992110480333667215388068063266279264610070491480566519854503993525365nat, 21888242871839275222246405745257275088696311157297823662689037894645226208583nat) == 3545448922392322649571122586780740185111300056348363333912210031675537370625nat);
    lemma_fundamental_div_mod_converse(3545448922392322649571122586780740185111300056348363333912210031675537370625int * 3545448922392322649571122586780740185111300056348363333912210031675537370625int, m, 574290414031603980701270378061451951215811730118705606636576285111781660251int, 17905546999529514950886563130539938833298590114626111161631955479072846756292int);
    lemma_fundamental_div_mod_converse(17905546999529514950886563130539938833298590114626111161631955479072846756292int * 3, m, 2int, 9940155254909994408166877901105266322503148029282686159517790647928087851710int);
    assert(mod_pow(3, 26307984220960667334430776136126532558529220140982961133039709007987050731nat, 21888242871839275222246405745257275088696311157297823662689037894645226208583nat) == 9940155254909994408166877901105266322503148029282686159517790647928087851710nat);
    lemma_fundamental_div_mod_converse(9940155254909994408166877901105266322503148029282686159517790647928087851710int * 9940155254909994408166877901105266322503148029282686159517790647928087851710int, m, 4514144286055796226494525203608272493783924904740009559654634286071530948677int, 15455375691098637721586500053983571417742820582337535347273887444477080029409int);
    assert(mod_pow(3, 52615968441921334668861552272253065117058440281965922266079418015974101462nat, 21888242871839275222246405745257275088696311157297823662689037894645226208583nat) == 15455375691098637721586500053983571417742820582337535347273887444477080029409nat);
    lemma_fundamental_div_mod_converse(15455375691098637721586500053983571417742820582337535347273887444477080029409int * 15455375691098637721586500053983571417742820582337535347273887444477080029409int, m, 10913102488474466318134850335109378153190215529899085273247008868624936953864int, 5816329352294097278134287300150664811004518004330777260686897847814393074569int);
    lemma_fundamental_div_mod_converse(5816329352294097278134287300150664811004518004330777260686897847814393074569int * 3, m, 0int, 17448988056882291834402861900451994433013554012992331782060693543443179223707int);
    assert(mod_pow(3, 105231936883842669337723104544506130234116880563931844532158836031948202925nat, 21888242871839275222246405745257275088696311157297823662689037894645226208583nat) == 17448988056882291834402861900451994433013554012992331782060693543443179223707nat);
    lemma_fundamental_div_mod_converse(17448988056882291834402861900451994433013554012992331782060693543443179223707int * 17448988056882291834402861900451994433013554012992331782060693543443179223707int, m, 13910078848811512439667540610741973807070295451638190098651943041352194475042int, 7763630792853493560069511701034697678606601046926010402821003861309471136363int);
    lemma_fundamental_div_mod_converse(7763630792853493560069511701034697678606601046926010402821003861309471136363int * 3, m, 1int, 1402649506721205457962129357846817947123491983480207545773973689283187200506int);
    assert(mod_pow(3, 210463873767685338675446209089012260468233761127863689064317672063896405851nat, 21888242871839275222246405745257275088696311157297823662689037894645226208583nat) == 1402649506721205457962129357846817947123491983480207545773973689283187200506nat);
    lemma_fundamental_div_mod_converse(1402649506721205457962129357846817947123491983480207545773973689283187200506int * 1402649506721205457962129357846817947123491983480207545773973689283187200506int, m, 89885042404955627388115872420988748104502344193283154686988592971232272098int, 7840072281353081589870448594993128812704950908070614934779080471180287638902int);
    lemma_fundamental_div_mod_converse(7840072281353081589870448594993128812704950908070614934779080471180287638902int * 3, m, 1int, 1631973972219969547364940039722111349418541566914021141648203518895636708123int);
    assert(mod_pow(3, 420927747535370677350892418178024520936467522255727378128635344127792811703nat, 21888242871839275222246405745257275088696311157297823662689037894645226208583nat) == 1631973972219969547364940039722111349418541566914021141648203518895636708123nat);
    lemma_fundamental_div_mod_converse(1631973972219969547364940039722111349418541566914021141648203518895636708123int * 1631973972219969547364940039722111349418541566914021141648203518895636708123int, m, 121678979057290805941449194307524890650839940160921774542286554227093096510int, 17926847860894828938843112208657642351705030461774383426024805786883284837799int);
    lemma_fundamental_div_mod_converse(17926847860894828938843112208657642351705030461774383426024805786883284837799int * 3, m, 2int, 10004057839005936372036525135458376877722469070727502952696341571359402096231int);
    assert(mod_pow(3, 841855495070741354701784836356049041872935044511454756257270688255585623407nat, 21888242871839275222246405745257275088696311157297823662689037894645226208583nat) == 10004057839005936372036525135458376877722469070727502952696341571359402096231nat);
    lemma_fundamental_div_mod_converse(10004057839005936372036525135458376877722469070727502952696341571359402096231int * 10004057839005936372036525135458376877722469070727502952696341571359402096231int, m, 4572371287735362940212657211257505278448931881797492760951508697375828671776int, 19285204852924686474994479317461708819641446017783043034637969515423763351953int);
    assert(mod_pow(3, 1683710990141482709403569672712098083745870089022909512514541376511171246814nat, 21888242871839275222246405745257275088696311157297823662689037894645226208583nat) == 19285204852924686474994479317461708819641446017783043034637969515423763351953nat);
}

#[verifier::rlimit(100)]
pub proof fn lemma_pow_base_modulus_by_29()
    ensures
        mod_pow(3, 754766995580664662836082956733009485817114177837855988368587513608456076158nat, 21888242871839275222246405745257275088696311157297823662689037894645226208583nat) == 19433260757112203149040899379563167323735763231524821801948606396997821674113nat,
{
    let m = 21888242871839275222246405745257275088696311157297823662689037894645226208583int;
    lemma_fundamental_div_mod_converse(1, m, 0, 1);
    assert(mod_pow(3, 0, 21888242871839275222246405745257275088696311157297823662689037894645226208583nat) == 1);
    lemma_fundamental_div_mod_converse(1int * 1int, m, 0int, 1int);
    lemma_fundamental_div_mod_converse(1int * 3, m, 0int, 3int);
    assert(mod_pow(3, 1, 21888242871839275222246405745257275088696311157297823662689037894645226208583nat) == 3);
    lemma_fundamental_div_mod_converse(3int * 3int, m, 0int, 9int);
    lemma_fundamental_div_mod_converse(9int * 3, m, 0int, 27int);
    assert(mod_pow(3, 3, 21888242871839275222246405745257275088696311157297823662689037894645226208583nat) == 27);
    lemma_fundamental_div_mod_converse(27int * 27int, m, 0int, 729int);
    assert(mod_pow(3, 6, 21888242871839275222246405745257275088696311157297823662689037894645226208583nat) == 729);
    lemma_fundamental_div_mod_converse(729int * 729int, m, 0int, 531441int);
    lemma_fundamental_div_mod_converse(531441int * 3, m, 0int, 1594323int);
    assert(mod_pow(3, 13, 21888242871839275222246405745257275088696311157297823662689037894645226208583nat) == 1594323);
    lemma_fundamental_div_mod_converse(1594323int * 1594323int, m, 0int, 2541865828329int);
    assert(mod_pow(3, 26, 21888242871839275222246405745257275088696311157297823662689037894645226208583nat) == 2541865828329);
    lemma_fundamental_div_mod_converse(2541865828329int * 2541865828329int, m, 0int, 6461081889226673298932241int);
    lemma_fundamental_div_mod_converse(6461081889226673298932241int * 3, m, 0int, 19383245667680019896796723int);
    assert(mod_pow(3, 53, 21888242871839275222246405745257275088696311157297823662689037894645226208583nat) == 19383245667680019896796723nat);
    lemma_fundamental_div_mod_converse(19383245667680019896796723int * 19383245667680019896796723int, m, 0int, 375710212613636260325580163599137907799836383538729int);
    assert(mod_pow(3, 106, 21888242871839275222246405745257275088696311157297823662689037894645226208583nat) == 375710212613636260325580163599137907799836383538729nat);
    lemma_fundamental_div_mod_converse(375710212613636260325580163599137907799836383538729int * 375710212613636260325580163599137907799836383538729int, m, 6449040459240947876426081int, 19056266696611735422781591793612442092658073731053499506389435859396755682218int);
    lemma_fundamental_div_mod_converse(19056266696611735422781591793612442092658073731053499506389435859396755682218int * 3, m, 2int, 13392314346156655823851963890322776100581598878564851193790231788899814629488int);
    assert(mod_pow(3, 213, 21888242871839275222246405745257275088696311157297823662689037894645226208583nat) == 13392314346156655823851963890322776100581598878564851193790231788899814629488nat);
    lemma_fundamental_div_mod_converse(13392314346156655823851963890322776100581598878564851193790231788899814629488int * 13392314346156655823851963890322776100581598878564851193790231788899814629488int, m, 8194083216109809254959296714395216564062473205629780585015126714325093441657int, 15141692599075131549313299178191277310983029565433732321536551113081896000113int);
    lemma_fundamental_div_mod_converse(15141692599075131549313299178191277310983029565433732321536551113081896000113int * 3, m, 2int, 1648592053546844203447086044059281755556466381705549639231577549955235583173int);
    assert(mod_pow(3, 427, 21888242871839275222246405745257275088696311157297823662689037894645226208583nat) == 1648592053546844203447086044059281755556466381705549639231577549955235583173nat);
    lemma_fundamental_div_mod_converse(1648592053546844203447086044059281755556466381705549639231577549955235583173int * 1648592053546844203447086044059281755556466381705549639231577549955235583173int, m, 124169663820502857904522338601698203145142828618843259465010911411559683458int, 1045024852661757110342795739893013014520536417780127086040084585636438027915int);
    assert(mod_pow(3, 854, 21888242871839275222246405745257275088696311157297823662689037894645226208583nat) == 1045024852661757110342795739893013014520536417780127086040084585636438027915nat);
    lemma_fundamental_div_mod_converse(1045024852661757110342795739893013014520536417780127086040084585636438027915int * 1045024852661757110342795739893013014520536417780127086040084585636438027915int, m, 49893312545693606126762063672731137705771427162067284094795289704866174465int, 8353219972457035700291462672310061204477434113189380064437672420878960814130int);
    assert(mod_pow(3, 1708, 21888242871839275222246405745257275088696311157297823662689037894645226208583nat) == 8353219972457035700291462672310061204477434113189380064437672420878960814130nat);
    lemma_fundamental_div_mod_converse(8353219972457035700291462672310061204477434113189380064437672420878960814130int * 8353219972457035700291462672310061204477434113189380064437672420878960814130int, m, 3187843095346273423624182354955090634740944205488730738486904649559211576872int, 8652373302942968240686300363932056204364694046137338900640346500230996964524int);
    lemma_fundamental_div_mod_converse(8652373302942968240686300363932056204364694046137338900640346500230996964524int * 3, m, 1int, 4068877036989629499812495346538893524397770981114193039232001606047764684989int);
    assert(mod_pow(3, 3417, 21888242871839275222246405745257275088696311157297823662689037894645226208583nat) == 4068877036989629499812495346538893524397770981114193039232001606047764684989nat);
    lemma_fundamental_div_mod_converse(4068877036989629499812495346538893524397770981114193039232001606047764684989int * 4068877036989629499812495346538893524397770981114193039232001606047764684989int, m, 756376856702445826691267655455039522735354461890864090779723716729964191128int, 18800253248794103623112602586436229522040348974666760755175163497222595878497int);
    assert(mod_pow(3, 6834, 21888242871839275222246405745257275088696311157297823662689037894645226208583nat) == 18800253248794103623112602586436229522040348974666760755175163497222595878497nat);
    lemma_fundamental_div_mod_converse(18800253248794103623112602586436229522040348974666760755175163497222595878497int * 18800253248794103623112602586436229522040348974666760755175163497222595878497int, m, 16147916682408997086348526011203292155301888438173426443939506578897759454772int, 10170032200937933958303708140472871004731174541048865301518554777772360270933int);
    lemma_fundamental_div_mod_converse(10170032200937933958303708140472871004731174541048865301518554777772360270933int * 3, m, 1int, 8621853730974526652664718676161337925497212465848772241866626438671854604216int);
    assert(mod_pow(3, 13669, 21888242871839275222246405745257275088696311157297823662689037894645226208583nat) == 8621853730974526652664718676161337925497212465848772241866626438671854604216nat);
    lemma_fundamental_div_mod_converse(8621853730974526652664718676161337925497212465848772241866626438671854604216int * 8621853730974526652664718676161337925497212465848772241866626438671854604216int, m, 3396177673720817040890774961144856313187726005446167251910573118660078463796int, 4605775179063820741991941751629393585061724637459441730220652441853895013588int);
    lemma_fundamental_div_mod_converse(4605775179063820741991941751629393585061724637459441730220652441853895013588int * 3, m, 0int, 13817325537191462225975825254888180755185173912378325190661957325561685040764int);
    assert(mod_pow(3, 27339, 21888242871839275222246405745257275088696311157297823662689037894645226208583nat) == 13817325537191462225975825254888180755185173912378325190661957325561685040764nat);
    lemma_fundamental_div_mod_converse(13817325537191462225975825254888180755185173912378325190661957325561685040764int * 13817325537191462225975825254888180755185173912378325190661957325561685040764int, m, 8722421718298504791457459242615121757025560420398754507417450024302166604659int, 18960372204737463945981407021262139111385677306768401585060760795531508115499int);
    lemma_fundamental_div_mod_converse(18960372204737463945981407021262139111385677306768401585060760795531508115499int * 3, m, 2int, 13104630870533841393451409573271867156764409605709557429804206597304071929331int);
    assert(mod_pow(3, 54679, 21888242871839275222246405745257275088696311157297823662689037894645226208583nat) == 13104630870533841393451409573271867156764409605709557429804206597304071929331nat);
    lemma_fundamental_div_mod_converse(13104630870533841393451409573271867156764409605709557429804206597304071929331int * 13104630870533841393451409573271867156764409605709557429804206597304071929331int, m, 7845826239158406775717787059349852194466089247955549906186325706869683605180int, 2161187208769181786093575384439790913905310394679646628847650665990558847621int);
    assert(mod_pow(3, 109358, 21888242871839275222246405745257275088696311157297823662689037894645226208583nat) == 2161187208769181786093575384439790913905310394679646628847650665990558847621nat);
    lemma_fundamental_div_mod_converse(2161187208769181786093575384439790913905310394679646628847650665990558847621int * 2161187208769181786093575384439790913905310394679646628847650665990558847621int, m, 213389908851785514111813552699427959172899987846328740818375502203218885127int, 20162082276621341121582458383858412544711854036151228165627979563285078914600int);
    lemma_fundamental_div_mod_converse(20162082276621341121582458383858412544711854036151228165627979563285078914600int * 3, m, 2int, 16709761086185472920254563661060687456742939793858037171505862900564784326634int);
    assert(mod_pow(3, 218717, 21888242871839275222246405745257275088696311157297823662689037894645226208583nat) == 16709761086185472920254563661060687456742939793858037171505862900564784326634nat);
    lemma_fundamental_div_mod_converse(16709761086185472920254563661060687456742939793858037171505862900564784326634int * 16709761086185472920254563661060687456742939793858037171505862900564784326634int, m, 12756442679856636058137842125459951227433463452803530875295326149917159863976int, 5171785820626252564845826125033587121070384787186520459413067702686318063948int);
    lemma_fundamental_div_mod_converse(5171785820626252564845826125033587121070384787186520459413067702686318063948int * 3, m, 0int, 15515357461878757694537478375100761363211154361559561378239203108058954191844int);
    assert(mod_pow(3, 437435, 21888242871839275222246405745257275088696311157297823662689037894645226208583nat) == 15515357461878757694537478375100761363211154361559561378239203108058954191844nat);
    lemma_fundamental_div_mod_converse(15515357461878757694537478375100761363211154361559561378239203108058954191844int * 15515357461878757694537478375100761363211154361559561378239203108058954191844int, m, 10997973596116650988906955038845062698518026849709570996362180147309311798645int, 1888569782343984530327849894467508733313228469164029646779164599277489350301int);
    assert(mod_pow(3, 874870, 21888242871839275222246405745257275088696311157297823662689037894645226208583nat) == 1888569782343984530327849894467508733313228469164029646779164599277489350301nat);
    lemma_fundamental_div_mod_converse(1888569782343984530327849894467508733313228469164029646779164599277489350301int * 1888569782343984530327849894467508733313228469164029646779164599277489350301int, m, 162950303670634236115120372566663825341894064682723898323398461052486252957int, 10678898921077787642495627255355611534319497330566405521183478809297706260670int);
    lemma_fundamental_div_mod_converse(10678898921077787642495627255355611534319497330566405521183478809297706260670int * 3, m, 1int, 10148453891394087705240476020809559514262180834401392900861398533247892573427int);
    assert(mod_pow(3, 1749741, 21888242871839275222246405745257275088696311157297823662689037894645226208583nat) == 10148453891394087705240476020809559514262180834401392900861398533247892573427nat);
    lemma_fundamental_div_mod_converse(10148453891394087705240476020809559514262180834401392900861398533247892573427int * 10148453891394087705240476020809559514262180834401392900861398533247892573427int, m, 4705316776170138920484811460241547598097438520424405422915251432419179612664int, 20247236766875563977711635688719291301449877098672374092950490475777374229217int);
    assert(mod_pow(3, 3499482, 21888242871839275222246405745257275088696311157297823662689037894645226208583nat) == 20247236766875563977711635688719291301449877098672374092950490475777374229217nat);
    lemma_fundamental_div_mod_converse(20247236766875563977711635688719291301449877098672374092950490475777374229217int * 20247236766875563977711635688719291301449877098672374092950490475777374229217int, m, 18729260228620141257061855838925628751513787694883592080810076122441149486165int, 15355204195058823761751771906715576687131498515796133392126406388143293678894int);
    lemma_fundamental_div_mod_converse(15355204195058823761751771906715576687131498515796133392126406388143293678894int * 3, m, 2int, 2289126841497920840762504229632179884001873232792752851001143375139428619516int);
    assert(mod_pow(3, 6998965, 21888242871839275222246405745257275088696311157297823662689037894645226208583nat) == 2289126841497920840762504229632179884001873232792752851001143375139428619516nat);
    lemma_fundamental_div_mod_converse(2289126841497920840762504229632179884001873232792752851001143375139428619516int * 2289126841497920840762504229632179884001873232792752851001143375139428619516int, m, 239402574576143671063601345365343835547605645940396613538618411856874304352int, 3681027908984127339445254725083880660778728807200021395293658009900919421040int);
    lemma_fundamental_div_mod_converse(3681027908984127339445254725083880660778728807200021395293658009900919421040int * 3, m, 0int, 11043083726952382018335764175251641982336186421600064185880974029702758263120int);
    assert(mod_pow(3, 13997931, 21888242871839275222246405745257275088696311157297823662689037894645226208583nat) == 11043083726952382018335764175251641982336186421600064185880974029702758263120nat);
    lemma_fundamental_div_mod_converse(11043083726952382018335764175251641982336186421600064185880974029702758263120int * 11043083726952382018335764175251641982336186421600064185880974029702758263120int, m, 5571470442580713390797071836515130229478696132564859458802058013840436825787int, 19137226193567599110354092561840597640918057514878119019410432530361857004579int);
    lemma_fundamental_div_mod_converse(19137226193567599110354092561840597640918057514878119019410432530361857004579int * 3, m, 2int, 13635192837024246886569466195007242745361550230038709732853221801795118596571int);
    assert(mod_pow(3, 27995863, 21888242871839275222246405745257275088696311157297823662689037894645226208583nat) == 13635192837024246886569466195007242745361550230038709732853221801795118596571nat);
    lemma_fundamental_div_mod_converse(13635192837024246886569466195007242745361550230038709732853221801795118596571int * 13635192837024246886569466195007242745361550230038709732853221801795118596571int, m, 8493988521208991313245537605998800591401407920506052383841947781137997808624int, 14630994530631361171987593356324497918947466297064929069579866324810712738249int);
    lemma_fundamental_div_mod_converse(14630994530631361171987593356324497918947466297064929069579866324810712738249int * 3, m, 2int, 116497848215533071469968578458943579449776576599139883361523185141685797581int);
    assert(mod_pow(3, 55991727, 21888242871839275222246405745257275088696311157297823662689037894645226208583nat) == 116497848215533071469968578458943579449776576599139883361523185141685797581nat);
    lemma_fundamental_div_mod_converse(116497848215533071469968578458943579449776576599139883361523185141685797581int * 116497848215533071469968578458943579449776576599139883361523185141685797581int, m, 620047425383348927473423368123572383089499125087067205060686760872324151int, 3003404856770452929990944932652839223203800697378438380537485346478991063528int);
    lemma_fundamental_div_mod_converse(3003404856770452929990944932652839223203800697378438380537485346478991063528int * 3, m, 0int, 9010214570311358789972834797958517669611402092135315141612456039436973190584int);
    assert(mod_pow(3, 111983455, 21888242871839275222246405745257275088696311157297823662689037894645226208583nat) == 9010214570311358789972834797958517669611402092135315141612456039436973190584nat);
    lemma_fundamental_div_mod_converse(9010214570311358789972834797958517669611402092135315141612456039436973190584int * 9010214570311358789972834797958517669611402092135315141612456039436973190584int, m, 3709021645931197230898677609163564617891125436066223073410328950991219397176int, 2283785068524248739723032426202102356449458145142891474478344133363489099448int);
    assert(mod_pow(3, 223966910, 21888242871839275222246405745257275088696311157297823662689037894645226208583nat) == 2283785068524248739723032426202102356449458145142891474478344133363489099448nat);
    lemma_fundamental_div_mod_converse(2283785068524248739723032426202102356449458145142891474478344133363489099448int * 2283785068524248739723032426202102356449458145142891474478344133363489099448int, m, 238286566434468338583101023563114719674944366763772739226784224155139611701int, 7067911926894878360725598473504381517529332581700517757440266840642980475021int);
    lemma_fundamental_div_mod_converse(7067911926894878360725598473504381517529332581700517757440266840642980475021int * 3, m, 0int, 21203735780684635082176795420513144552587997745101553272320800521928941425063int);
    assert(mod_pow(3, 447933821, 21888242871839275222246405745257275088696311157297823662689037894645226208583nat) == 21203735780684635082176795420513144552587997745101553272320800521928941425063nat);
    lemma_fundamental_div_mod_converse(21203735780684635082176795420513144552587997745101553272320800521928941425063int * 21203735780684635082176795420513144552587997745101553272320800521928941425063int, m, 20540635156946518744630701197214633189863010324854839117964918990771070698978int, 18339260895057747513124404940888574750166709179889969211456099691058611625795int);
    assert(mod_pow(3, 895867642, 21888242871839275222246405745257275088696311157297823662689037894645226208583nat) == 18339260895057747513124404940888574750166709179889969211456099691058611625795nat);
    lemma_fundamental_div_mod_converse(18339260895057747513124404940888574750166709179889969211456099691058611625795int * 18339260895057747513124404940888574750166709179889969211456099691058611625795int, m, 15365714468094830517118398583407649565488817431764009947028142339883424714259int, 9345645855031509444269968768992498219755862038074647878440176235478401097028int);
    assert(mod_pow(3, 1791735284, 21888242871839275222246405745257275088696311157297823662689037894645226208583nat) == 9345645855031509444269968768992498219755862038074647878440176235478401097028nat);
    lemma_fundamental_div_mod_converse(9345645855031509444269968768992498219755862038074647878440176235478401097028int * 9345645855031509444269968768992498219755862038074647878440176235478401097028int, m, 3990320143972723392475369883830978529617238476703660082183535481964622605646int, 13772241419744274741563692902946629227757650142824500490577699296170920973166int);
    lemma_fundamental_div_mod_converse(13772241419744274741563692902946629227757650142824500490577699296170920973166int * 3, m, 1int, 19428481387393549002444672963582612594576639271175677809044059993867536710915int);
    assert(mod_pow(3, 3583470569, 21888242871839275222246405745257275088696311157297823662689037894645226208583nat) == 19428481387393549002444672963582612594576639271175677809044059993867536710915nat);
    lemma_fundamental_div_mod_converse(19428481387393549002444672963582612594576639271175677809044059993867536710915int * 19428481387393549002444672963582612594576639271175677809044059993867536710915int, m, 17245143487782351968471662477500210769926358896281623936378714878545140005193int, 5854621529340442958598489911018626998445437817489005257949991861619958965706int);
    assert(mod_pow(3, 7166941138, 21888242871839275222246405745257275088696311157297823662689037894645226208583nat) == 5854621529340442958598489911018626998445437817489005257949991861619958965706nat);
    lemma_fundamental_div_mod_converse(5854621529340442958598489911018626998445437817489005257949991861619958965706int * 5854621529340442958598489911018626998445437817489005257949991861619958965706int, m, 1565981949876653364813335944509934797359248734630340562389858786678937504910int, 20905428390096995335027076980996500171722378166214613999284864955372037435906int);
    lemma_fundamental_div_mod_converse(20905428390096995335027076980996500171722378166214613999284864955372037435906int * 3, m, 2int, 18939799426612435560588419452474950337774512184048194672476519076825659890552int);
    assert(mod_pow(3, 14333882277, 21888242871839275222246405745257275088696311157297823662689037894645226208583nat) == 18939799426612435560588419452474950337774512184048194672476519076825659890552nat);
    lemma_fundamental_div_mod_converse(18939799426612435560588419452474950337774512184048194672476519076825659890552int * 18939799426612435560588419452474950337774512184048194672476519076825659890552int, m, 16388524397352218158246957692832797789388014400058205850566996767606426589327int, 17928972889738352278943269573506757237160503890629392200924657255960435271063int);
    lemma_fundamental_div_mod_converse(17928972889738352278943269573506757237160503890629392200924657255960435271063int * 3, m, 2int, 10010432925536506392336997230005721534088889357292529277395895978590853396023int);
    assert(mod_pow(3, 28667764555, 21888242871839275222246405745257275088696311157297823662689037894645226208583nat) == 10010432925536506392336997230005721534088889357292529277395895978590853396023nat);
    lemma_fundamental_div_mod_converse(10010432925536506392336997230005721534088889357292529277395895978590853396023int * 10010432925536506392336997230005721534088889357292529277395895978590853396023int, m, 4578200632339968509696941138879536610009087050578094872826439666216706425524int, 6509828448576518366057120161534963058113033020029670458471201529487293144037int);
    assert(mod_pow(3, 57335529110, 21888242871839275222246405745257275088696311157297823662689037894645226208583nat) == 6509828448576518366057120161534963058113033020029670458471201529487293144037nat);
    lemma_fundamental_div_mod_converse(6509828448576518366057120161534963058113033020029670458471201529487293144037int * 6509828448576518366057120161534963058113033020029670458471201529487293144037int, m, 1936101800314825177904876469028679946646382095290296850016160194353877813694int, 1893526229388753548095112207678979734936328497197576820402767802043570921767int);
    assert(mod_pow(3, 114671058220, 21888242871839275222246405745257275088696311157297823662689037894645226208583nat) == 1893526229388753548095112207678979734936328497197576820402767802043570921767nat);
    lemma_fundamental_div_mod_converse(1893526229388753548095112207678979734936328497197576820402767802043570921767int * 1893526229388753548095112207678979734936328497197576820402767802043570921767int, m, 163806734162115264103859186036591835869751744863614310018121288356375546398int, 9982138926962912712364736953819434076237490285231464314314854141549492068255int);
    lemma_fundamental_div_mod_converse(9982138926962912712364736953819434076237490285231464314314854141549492068255int * 3, m, 1int, 8058173909049462914847805116201027140016159698396569280255524530003249996182int);
    assert(mod_pow(3, 229342116441, 21888242871839275222246405745257275088696311157297823662689037894645226208583nat) == 8058173909049462914847805116201027140016159698396569280255524530003249996182nat);
    lemma_fundamental_div_mod_converse(8058173909049462914847805116201027140016159698396569280255524530003249996182int * 8058173909049462914847805116201027140016159698396569280255524530003249996182int, m, 2966623092072308747814491665517248584616593758100231406405685036635499468624int, 13963592169258332384474782902617459869113497363805629061846436854408326577332int);
    lemma_fundamental_div_mod_converse(13963592169258332384474782902617459869113497363805629061846436854408326577332int * 3, m, 1int, 20002533635935721931177942962595104518644180934119063522850272668579753523413int);
    assert(mod_pow(3, 458684232883, 21888242871839275222246405745257275088696311157297823662689037894645226208583nat) == 20002533635935721931177942962595104518644180934119063522850272668579753523413nat);
    lemma_fundamental_div_mod_converse(20002533635935721931177942962595104518644180934119063522850272668579753523413int * 20002533635935721931177942962595104518644180934119063522850272668579753523413int, m, 18279281448009595417143278621449568911567089452556543673329502188967780131206int, 8254813763574956315846115277083919489292580044046810477952195109782275827471int);
    assert(mod_pow(3, 917368465766, 21888242871839275222246405745257275088696311157297823662689037894645226208583nat) == 8254813763574956315846115277083919489292580044046810477952195109782275827471nat);
    lemma_fundamental_div_mod_converse(8254813763574956315846115277083919489292580044046810477952195109782275827471int * 8254813763574956315846115277083919489292580044046810477952195109782275827471int, m, 3113175903168354577311898185582764666503017898287340262595433078855488288491int, 9332588542056570424152037211580089932541945422536191193251297625230113937588int);
    assert(mod_pow(3, 1834736931532, 21888242871839275222246405745257275088696311157297823662689037894645226208583nat) == 9332588542056570424152037211580089932541945422536191193251297625230113937588nat);
    lemma_fundamental_div_mod_converse(9332588542056570424152037211580089932541945422536191193251297625230113937588int * 9332588542056570424152037211580089932541945422536191193251297625230113937588int, m, 3979177744202670194452737613191626268046227053868954556589994450354756861656int, 18900918254002013521962566131929433177964093088138760466567299643149228464296int);
    lemma_fundamental_div_mod_converse(18900918254002013521962566131929433177964093088138760466567299643149228464296int * 3, m, 2int, 12926269018327490121394886905273749356499656949820634074323823140157232975722int);
    assert(mod_pow(3, 3669473863065, 21888242871839275222246405745257275088696311157297823662689037894645226208583nat) == 12926269018327490121394886905273749356499656949820634074323823140157232975722nat);
    lemma_fundamental_div_mod_converse(12926269018327490121394886905273749356499656949820634074323823140157232975722int * 12926269018327490121394886905273749356499656949820634074323823140157232975722int, m, 7633706904319115277656701098370496722382969815614817441972263641738074287339int, 13558513204457210629701301981768548076384939703290153314032493973052351390647int);
    assert(mod_pow(3, 7338947726130, 21888242871839275222246405745257275088696311157297823662689037894645226208583nat) == 13558513204457210629701301981768548076384939703290153314032493973052351390647nat);
    lemma_fundamental_div_mod_converse(13558513204457210629701301981768548076384939703290153314032493973052351390647int * 13558513204457210629701301981768548076384939703290153314032493973052351390647int, m, 8398722610664863110572796169915850396710513795629994391373940917276821602627int, 9926141174617130344225843092641148840782578909504376263747017898785756331068int);
    lemma_fundamental_div_mod_converse(9926141174617130344225843092641148840782578909504376263747017898785756331068int * 3, m, 1int, 7890180652012115810431123532666171433651425571215305128552015801712042784621int);
    assert(mod_pow(3, 14677895452261, 21888242871839275222246405745257275088696311157297823662689037894645226208583nat) == 7890180652012115810431123532666171433651425571215305128552015801712042784621nat);
    lemma_fundamental_div_mod_converse(7890180652012115810431123532666171433651425571215305128552015801712042784621int * 7890180652012115810431123532666171433651425571215305128552015801712042784621int, m, 2844218747292940463500505343892519104759666907293860419985240944555976753036int, 20289747064493472843032648892017684550942092122233830350198379015122579605653int);
    lemma_fundamental_div_mod_converse(20289747064493472843032648892017684550942092122233830350198379015122579605653int * 3, m, 2int, 17092755449801868084605135185538503475433654052105843725217061256077286399793int);
    assert(mod_pow(3, 29355790904523, 21888242871839275222246405745257275088696311157297823662689037894645226208583nat) == 17092755449801868084605135185538503475433654052105843725217061256077286399793nat);
    lemma_fundamental_div_mod_converse(17092755449801868084605135185538503475433654052105843725217061256077286399793int * 17092755449801868084605135185538503475433654052105843725217061256077286399793int, m, 13347909678150468284111518294870027541294168740687280734077985638142414579515int, 5584842679199951446810516836105554532468142236187384459079536057557801465604int);
    lemma_fundamental_div_mod_converse(5584842679199951446810516836105554532468142236187384459079536057557801465604int * 3, m, 0int, 16754528037599854340431550508316663597404426708562153377238608172673404396812int);
    assert(mod_pow(3, 58711581809047, 21888242871839275222246405745257275088696311157297823662689037894645226208583nat) == 16754528037599854340431550508316663597404426708562153377238608172673404396812nat);
    lemma_fundamental_div_mod_converse(16754528037599854340431550508316663597404426708562153377238608172673404396812int * 16754528037599854340431550508316663597404426708562153377238608172673404396812int, m, 12824885551862991178305826952676366333901144799819217911562791384633865199557int, 19249126779337397790247166293849736555823047644736599621490675680863754565613int);
    lemma_fundamental_div_mod_converse(19249126779337397790247166293849736555823047644736599621490675680863754565613int * 3, m, 2int, 13970894594333642926248687391034659490076520619614151539093951253300811279673int);
    assert(mod_pow(3, 117423163618095, 21888242871839275222246405745257275088696311157297823662689037894645226208583nat) == 13970894594333642926248687391034659490076520619614151539093951253300811279673nat);
    lemma_fundamental_div_mod_converse(13970894594333642926248687391034659490076520619614151539093951253300811279673int * 13970894594333642926248687391034659490076520619614151539093951253300811279673int, m, 8917385324570801387069622486863077267948116653630448530041430545558408111042int, 2575157711474916053454288288898425642469930472032474419036244903883305513443int);
    lemma_fundamental_div_mod_converse(2575157711474916053454288288898425642469930472032474419036244903883305513443int * 3, m, 0int, 7725473134424748160362864866695276927409791416097423257108734711649916540329int);
    assert(mod_pow(3, 234846327236191, 21888242871839275222246405745257275088696311157297823662689037894645226208583nat) == 7725473134424748160362864866695276927409791416097423257108734711649916540329nat);
    lemma_fundamental_div_mod_converse(7725473134424748160362864866695276927409791416097423257108734711649916540329int * 7725473134424748160362864866695276927409791416097423257108734711649916540329int, m, 2726712029840674418864017697249931815797004503876305154512846209848235433339int, 8661329744777452684179475374853242520031841264684736531358336679135677279604int);
    assert(mod_pow(3, 469692654472382, 21888242871839275222246405745257275088696311157297823662689037894645226208583nat) == 8661329744777452684179475374853242520031841264684736531358336679135677279604nat);
    lemma_fundamental_div_mod_converse(8661329744777452684179475374853242520031841264684736531358336679135677279604int * 8661329744777452684179475374853242520031841264684736531358336679135677279604int, m, 3427348343447123709961261510960103423556586909984998403814181498507777411459int, 4507333157537643895025300145683687923849847278610992644432395752961446044219int);
    lemma_fundamental_div_mod_converse(4507333157537643895025300145683687923849847278610992644432395752961446044219int * 3, m, 0int, 13521999472612931685075900437051063771549541835832977933297187258884338132657int);
    assert(mod_pow(3, 939385308944765, 21888242871839275222246405745257275088696311157297823662689037894645226208583nat) == 13521999472612931685075900437051063771549541835832977933297187258884338132657nat);
    lemma_fundamental_div_mod_converse(13521999472612931685075900437051063771549541835832977933297187258884338132657int * 13521999472612931685075900437051063771549541835832977933297187258884338132657int, m, 8353547190057286232212482019195086338349493010581338797977069951511745379486int, 3464310098730673420726301345611521489787962397223145059838739000649404551311int);
    lemma_fundamental_div_mod_converse(3464310098730673420726301345611521489787962397223145059838739000649404551311int * 3, m, 0int, 10392930296192020262178904036834564469363887191669435179516217001948213653933int);
    assert(mod_pow(3, 1878770617889531, 21888242871839275222246405745257275088696311157297823662689037894645226208583nat) == 10392930296192020262178904036834564469363887191669435179516217001948213653933nat);
    lemma_fundamental_div_mod_converse(10392930296192020262178904036834564469363887191669435179516217001948213653933int * 10392930296192020262178904036834564469363887191669435179516217001948213653933int, m, 4934749708962343542784563444725986496542984325109642058837052398979611259771int, 7356607688951559527247965825943361426856930479508715027983410035712443553996int);
    lemma_fundamental_div_mod_converse(7356607688951559527247965825943361426856930479508715027983410035712443553996int * 3, m, 1int, 181580195015403359497491732572809191874480281228321421261192212492104453405int);
    assert(mod_pow(3, 3757541235779063, 21888242871839275222246405745257275088696311157297823662689037894645226208583nat) == 181580195015403359497491732572809191874480281228321421261192212492104453405nat);
    lemma_fundamental_div_mod_converse(181580195015403359497491732572809191874480281228321421261192212492104453405int * 181580195015403359497491732572809191874480281228321421261192212492104453405int, m, 1506350574364826652492763464140775244070071955060085680706235721457644509int, 16138131419590333947486134000816680491402452521773891562928537110269917473278int);
    assert(mod_pow(3, 7515082471558126, 21888242871839275222246405745257275088696311157297823662689037894645226208583nat) == 16138131419590333947486134000816680491402452521773891562928537110269917473278nat);
    lemma_fundamental_div_mod_converse(16138131419590333947486134000816680491402452521773891562928537110269917473278int * 16138131419590333947486134000816680491402452521773891562928537110269917473278int, m, 11898592648158236585541156071082116576766401204677996616224265712890538019261int, 10828044343640169415977338408984415982711351256289447824911783343990186548121int);
    assert(mod_pow(3, 15030164943116252, 21888242871839275222246405745257275088696311157297823662689037894645226208583nat) == 10828044343640169415977338408984415982711351256289447824911783343990186548121nat);
    lemma_fundamental_div_mod_converse(10828044343640169415977338408984415982711351256289447824911783343990186548121int * 10828044343640169415977338408984415982711351256289447824911783343990186548121int, m, 5356599202336318333602163250857533251923384196802824083997384778905270752438int, 18853777011425317848163852481006944949935952677439852971144446603131104855287int);
    lemma_fundamental_div_mod_converse(18853777011425317848163852481006944949935952677439852971144446603131104855287int * 3, m, 2int, 12784845290597403099998745952506284672415235717723911588055264020102862148695int);
    assert(mod_pow(3, 30060329886232505, 21888242871839275222246405745257275088696311157297823662689037894645226208583nat) == 12784845290597403099998745952506284672415235717723911588055264020102862148695nat);
    lemma_fundamental_div_mod_converse(12784845290597403099998745952506284672415235717723911588055264020102862148695int * 12784845290597403099998745952506284672415235717723911588055264020102862148695int, m, 7467582942201502364963318139858801651154569361888722500688753787577949337409int, 20190084939381692995401855401738974181940024689045950464933539237686211421578int);
    lemma_fundamental_div_mod_converse(20190084939381692995401855401738974181940024689045950464933539237686211421578int * 3, m, 2int, 16793769074466528541712754714702372368427451752542204069422541923768181847568int);
    assert(mod_pow(3, 60120659772465011, 21888242871839275222246405745257275088696311157297823662689037894645226208583nat) == 16793769074466528541712754714702372368427451752542204069422541923768181847568nat);
    lemma_fundamental_div_mod_converse(16793769074466528541712754714702372368427451752542204069422541923768181847568int * 16793769074466528541712754714702372368427451752542204069422541923768181847568int, m, 12885030624790816984481940414982549591456659209321045991343713085456247389304int, 11192014309677569989684218276510796587271200426384434904929069953474080318392int);
    assert(mod_pow(3, 120241319544930022, 21888242871839275222246405745257275088696311157297823662689037894645226208583nat) == 11192014309677569989684218276510796587271200426384434904929069953474080318392nat);
    lemma_fundamental_div_mod_converse(11192014309677569989684218276510796587271200426384434904929069953474080318392int * 11192014309677569989684218276510796587271200426384434904929069953474080318392int, m, 5722761075042007740344834684380650094628143767053699419618706508440882443627int, 12679287475251028890596287404383022717409508834579543737854832204402652415123int);
    lemma_fundamental_div_mod_converse(12679287475251028890596287404383022717409508834579543737854832204402652415123int * 3, m, 1int, 16149619553913811449542456467891793063532215346440807550875458718562731036786int);
    assert(mod_pow(3, 240482639089860045, 21888242871839275222246405745257275088696311157297823662689037894645226208583nat) == 16149619553913811449542456467891793063532215346440807550875458718562731036786nat);
    lemma_fundamental_div_mod_converse(16149619553913811449542456467891793063532215346440807550875458718562731036786int * 16149619553913811449542456467891793063532215346440807550875458718562731036786int, m, 11915539007094331398971184930587286299328094584120625308830237843447804223590int, 8583962106756172010183792654680841940680117413987034762919273154816776136826int);
    lemma_fundamental_div_mod_converse(8583962106756172010183792654680841940680117413987034762919273154816776136826int * 3, m, 1int, 3863643448429240808304972218785250733344041084663280626068781569805102201895int);
    assert(mod_pow(3, 480965278179720091, 21888242871839275222246405745257275088696311157297823662689037894645226208583nat) == 3863643448429240808304972218785250733344041084663280626068781569805102201895nat);
    lemma_fundamental_div_mod_converse(3863643448429240808304972218785250733344041084663280626068781569805102201895int * 3863643448429240808304972218785250733344041084663280626068781569805102201895int, m, 681998129497903059233727280649825302063840533642885210621985768466787212021int, 10077986961998205419070242732272802018554688737743532462085188460838550614782int);
    lemma_fundamental_div_mod_converse(10077986961998205419070242732272802018554688737743532462085188460838550614782int * 3, m, 1int, 8345718014155341034964322451561130966967755055932773723566527487870425635763int);
    assert(mod_pow(3, 961930556359440183, 21888242871839275222246405745257275088696311157297823662689037894645226208583nat) == 8345718014155341034964322451561130966967755055932773723566527487870425635763nat);
    lemma_fundamental_div_mod_converse(8345718014155341034964322451561130966967755055932773723566527487870425635763int * 8345718014155341034964322451561130966967755055932773723566527487870425635763int, m, 3182119715119196098239104633975054970769284740454209880847967626291278166259int, 17444506098244463041569824380697877429225798234074281895689363193119457791172int);
    lemma_fundamental_div_mod_converse(17444506098244463041569824380697877429225798234074281895689363193119457791172int * 3, m, 2int, 8557032551054838680216661651579082110284772387627198361690013790067920956350int);
    assert(mod_pow(3, 1923861112718880367, 21888242871839275222246405745257275088696311157297823662689037894645226208583nat) == 8557032551054838680216661651579082110284772387627198361690013790067920956350nat);
    lemma_fundamental_div_mod_converse(8557032551054838680216661651579082110284772387627198361690013790067920956350int * 8557032551054838680216661651579082110284772387627198361690013790067920956350int, m, 3345303070170983866484682990269432817527789913419864399222893023921420442263int, 17082843515316546729689317654792640126841202238342230234725240308272058779171int);
    assert(mod_pow(3, 3847722225437760734, 21888242871839275222246405745257275088696311157297823662689037894645226208583nat) == 17082843515316546729689317654792640126841202238342230234725240308272058779171nat);
    lemma_fundamental_div_mod_converse(17082843515316546729689317654792640126841202238342230234725240308272058779171int * 17082843515316546729689317654792640126841202238342230234725240308272058779171int, m, 13332433502199648113151247872421620980774690792898055452237806802948648495206int, 12189889891398608868520308220308473957913022355100521689363639090279311894143int);
    lemma_fundamental_div_mod_converse(12189889891398608868520308220308473957913022355100521689363639090279311894143int * 3, m, 1int, 14681426802356551383314518915668146785042755908003741405401879376192709473846int);
    assert(mod_pow(3, 7695444450875521469, 21888242871839275222246405745257275088696311157297823662689037894645226208583nat) == 14681426802356551383314518915668146785042755908003741405401879376192709473846nat);
    lemma_fundamental_div_mod_converse(14681426802356551383314518915668146785042755908003741405401879376192709473846int * 14681426802356551383314518915668146785042755908003741405401879376192709473846int, m, 9847491834544006297484236708920237252307602622368125357817882614921756896339int, 15913180863233322767436417969418297233175823099602531619858688013955834954079int);
    assert(mod_pow(3, 15390888901751042938nat, 21888242871839275222246405745257275088696311157297823662689037894645226208583nat) == 15913180863233322767436417969418297233175823099602531619858688013955834954079nat);
    lemma_fundamental_div_mod_converse(15913180863233322767436417969418297233175823099602531619858688013955834954079int * 15913180863233322767436417969418297233175823099602531619858688013955834954079int, m, 11569193866711526851035423188293014110048755843303377101056812496332496673752int, 14166115348780559564333061420820660267209211685182331503870389865742385524825int);
    assert(mod_pow(3, 30781777803502085876nat, 21888242871839275222246405745257275088696311157297823662689037894645226208583nat) == 14166115348780559564333061420820660267209211685182331503870389865742385524825nat);
    lemma_fundamental_div_mod_converse(14166115348780559564333061420820660267209211685182331503870389865742385524825int * 14166115348780559564333061420820660267209211685182331503870389865742385524825int, m, 9168338694429565992998119602105502697141883681013975119442497637768011460654int, 4277480297094588113406969456049045281459035599654031096024300766618389687343int);
    lemma_fundamental_div_mod_converse(4277480297094588113406969456049045281459035599654031096024300766618389687343int * 3, m, 0int, 12832440891283764340220908368147135844377106798962093288072902299855169062029int);
    assert(mod_pow(3, 61563555607004171753nat, 21888242871839275222246405745257275088696311157297823662689037894645226208583nat) == 12832440891283764340220908368147135844377106798962093288072902299855169062029nat);
    lemma_fundamental_div_mod_converse(12832440891283764340220908368147135844377106798962093288072902299855169062029int * 12832440891283764340220908368147135844377106798962093288072902299855169062029int, m, 7523287282240132427712393425031321958778428804926835182996357847747629997408int, 21240540226121878635264435223113986327635249349314457145134485790077692243977int);
    assert(mod_pow(3, 123127111214008343506nat, 21888242871839275222246405745257275088696311157297823662689037894645226208583nat) == 21240540226121878635264435223113986327635249349314457145134485790077692243977nat);
    lemma_fundamental_div_mod_converse(21240540226121878635264435223113986327635249349314457145134485790077692243977int * 21240540226121878635264435223113986327635249349314457145134485790077692243977int, m, 20612003975794267079627872020184249486033377897863582515430787445820290471300int, 4332792907005096042382270005000880215918089361221810922675265065520517608629int);
    lemma_fundamental_div_mod_converse(4332792907005096042382270005000880215918089361221810922675265065520517608629int * 3, m, 0int, 12998378721015288127146810015002640647754268083665432768025795196561552825887int);
    assert(mod_pow(3, 246254222428016687013nat, 21888242871839275222246405745257275088696311157297823662689037894645226208583nat) == 12998378721015288127146810015002640647754268083665432768025795196561552825887nat);
    lemma_fundamental_div_mod_converse(12998378721015288127146810015002640647754268083665432768025795196561552825887int * 12998378721015288127146810015002640647754268083665432768025795196561552825887int, m, 7719114337511253219912160171324842216423110735009989846268518206021215735009int, 16810144152991630603739754596106176709685472403984452610718312559516647954522int);
    lemma_fundamental_div_mod_converse(16810144152991630603739754596106176709685472403984452610718312559516647954522int * 3, m, 2int, 6653946715296341366726452297803979951663794897357710506776861889259491446400int);
    assert(mod_pow(3, 492508444856033374027nat, 21888242871839275222246405745257275088696311157297823662689037894645226208583nat) == 6653946715296341366726452297803979951663794897357710506776861889259491446400nat);
    lemma_fundamental_div_mod_converse(6653946715296341366726452297803979951663794897357710506776861889259491446400int * 6653946715296341366726452297803979951663794897357710506776861889259491446400int, m, 2022775749942257892871887112222143940246333492116679279742204420509516422092int, 20926318151433039740760784240622024958136082702455569090043669609567411744364int);
    assert(mod_pow(3, 985016889712066748054nat, 21888242871839275222246405745257275088696311157297823662689037894645226208583nat) == 20926318151433039740760784240622024958136082702455569090043669609567411744364nat);
    lemma_fundamental_div_mod_converse(20926318151433039740760784240622024958136082702455569090043669609567411744364int * 20926318151433039740760784240622024958136082702455569090043669609567411744364int, m, 20006667229483192693605350564557682274889763516916470821276020941993574041547int, 18317302610255297689260898807011199441698186837519090109088424599338355766595int);
    assert(mod_pow(3, 1970033779424133496108nat, 21888242871839275222246405745257275088696311157297823662689037894645226208583nat) == 18317302610255297689260898807011199441698186837519090109088424599338355766595nat);
    lemma_fundamental_div_mod_converse(18317302610255297689260898807011199441698186837519090109088424599338355766595int * 18317302610255297689260898807011199441698186837519090109088424599338355766595int, m, 15328940604334193479409145069474438569129183855980503730849560616400461824504int, 15138019618803221328842616674494446865591574957855984882345379187143473376193int);
    lemma_fundamental_div_mod_converse(15138019618803221328842616674494446865591574957855984882345379187143473376193int * 3, m, 2int, 1637573112731113542035038532968790419382102558972307321658061772139967711413int);
    assert(mod_pow(3, 3940067558848266992217nat, 21888242871839275222246405745257275088696311157297823662689037894645226208583nat) == 1637573112731113542035038532968790419382102558972307321658061772139967711413nat);
    lemma_fundamental_div_mod_converse(1637573112731113542035038532968790419382102558972307321658061772139967711413int * 1637573112731113542035038532968790419382102558972307321658061772139967711413int, m, 122515348319256330352357458956798157238303427424761947642000211724473394581int, 6668318383981103308068386379403180967353381465696908251449282878438482567846int);
    lemma_fundamental_div_mod_converse(6668318383981103308068386379403180967353381465696908251449282878438482567846int * 3, m, 0int, 20004955151943309924205159138209542902060144397090724754347848635315447703538int);
    assert(mod_pow(3, 7880135117696533984435nat, 21888242871839275222246405745257275088696311157297823662689037894645226208583nat) == 20004955151943309924205159138209542902060144397090724754347848635315447703538nat);
    lemma_fundamental_div_mod_converse(20004955151943309924205159138209542902060144397090724754347848635315447703538int * 20004955151943309924205159138209542902060144397090724754347848635315447703538int, m, 18283707512499581838648691978883919228160782751979299867781946367565453535221int, 14979446133591704174738882154882992894602210706126631696624021731898254715601int);
    assert(mod_pow(3, 15760270235393067968870nat, 21888242871839275222246405745257275088696311157297823662689037894645226208583nat) == 14979446133591704174738882154882992894602210706126631696624021731898254715601nat);
    lemma_fundamental_div_mod_converse(14979446133591704174738882154882992894602210706126631696624021731898254715601int * 14979446133591704174738882154882992894602210706126631696624021731898254715601int, m, 10251339396359705175691514580543992948391315432475496604326757246764225563164int, 8006811938073741770865818979216153645782104863382290675171443104917687354589int);
    lemma_fundamental_div_mod_converse(8006811938073741770865818979216153645782104863382290675171443104917687354589int * 3, m, 1int, 2132192942381950090351051192391185848650003432849048362825291420107835855184int);
    assert(mod_pow(3, 31520540470786135937741nat, 21888242871839275222246405745257275088696311157297823662689037894645226208583nat) == 2132192942381950090351051192391185848650003432849048362825291420107835855184nat);
    lemma_fundamental_div_mod_converse(2132192942381950090351051192391185848650003432849048362825291420107835855184int * 2132192942381950090351051192391185848650003432849048362825291420107835855184int, m, 207702681762201021377468223058843366856067142202500099736307019833583005369int, 20139152732125578542295136518120180009971784664250987082147015166802216791729int);
    assert(mod_pow(3, 63041080941572271875482nat, 21888242871839275222246405745257275088696311157297823662689037894645226208583nat) == 20139152732125578542295136518120180009971784664250987082147015166802216791729nat);
    lemma_fundamental_div_mod_converse(20139152732125578542295136518120180009971784664250987082147015166802216791729int * 20139152732125578542295136518120180009971784664250987082147015166802216791729int, m, 18529832437563760139121408563226681004458592378425646939864882679405105410902int, 7510001255203232354541443423116772895908818619616697969023322362213988637575int);
    lemma_fundamental_div_mod_converse(7510001255203232354541443423116772895908818619616697969023322362213988637575int * 3, m, 1int, 641760893770421841377924524093043599030144701552270244380929191996739704142int);
    assert(mod_pow(3, 126082161883144543750965nat, 21888242871839275222246405745257275088696311157297823662689037894645226208583nat) == 641760893770421841377924524093043599030144701552270244380929191996739704142nat);
    lemma_fundamental_div_mod_converse(641760893770421841377924524093043599030144701552270244380929191996739704142int * 641760893770421841377924524093043599030144701552270244380929191996739704142int, m, 18816359411969655459741043308440838854153213295419391859384756986670938373int, 1627833009729018319368983239213935170338789584922168771204640161640055300705int);
    assert(mod_pow(3, 252164323766289087501930nat, 21888242871839275222246405745257275088696311157297823662689037894645226208583nat) == 1627833009729018319368983239213935170338789584922168771204640161640055300705nat);
    lemma_fundamental_div_mod_converse(1627833009729018319368983239213935170338789584922168771204640161640055300705int * 1627833009729018319368983239213935170338789584922168771204640161640055300705int, m, 121062267221670654915880216102854696149514169041953732541150129793570715962int, 8961203056613875360997256730063587481577554443413686102587369432909913995179int);
    assert(mod_pow(3, 504328647532578175003860nat, 21888242871839275222246405745257275088696311157297823662689037894645226208583nat) == 8961203056613875360997256730063587481577554443413686102587369432909913995179nat);
    lemma_fundamental_div_mod_converse(8961203056613875360997256730063587481577554443413686102587369432909913995179int * 8961203056613875360997256730063587481577554443413686102587369432909913995179int, m, 3668780572842664435166320684272704173860473718615255191648987725742910986369int, 15960389755389414018165083307841150693696361528732533572062665668082571436914int);
    assert(mod_pow(3, 1008657295065156350007720nat, 21888242871839275222246405745257275088696311157297823662689037894645226208583nat) == 15960389755389414018165083307841150693696361528732533572062665668082571436914nat);
    lemma_fundamental_div_mod_converse(15960389755389414018165083307841150693696361528732533572062665668082571436914int * 15960389755389414018165083307841150693696361528732533572062665668082571436914int, m, 11637939264264659802284615658856253883721534378519206902575327728363671867663int, 4818444823842455212529329759101089029498665006720825688367047811546671091867int);
    lemma_fundamental_div_mod_converse(4818444823842455212529329759101089029498665006720825688367047811546671091867int * 3, m, 0int, 14455334471527365637587989277303267088495995020162477065101143434640013275601int);
    assert(mod_pow(3, 2017314590130312700015441nat, 21888242871839275222246405745257275088696311157297823662689037894645226208583nat) == 14455334471527365637587989277303267088495995020162477065101143434640013275601nat);
    lemma_fundamental_div_mod_converse(14455334471527365637587989277303267088495995020162477065101143434640013275601int * 14455334471527365637587989277303267088495995020162477065101143434640013275601int, m, 9546526685911570077943857242896625695034880172378801441817565812036424338976int, 3771685367728570211229171617072765610989442602690634338655241535895109280193int);
    lemma_fundamental_div_mod_converse(3771685367728570211229171617072765610989442602690634338655241535895109280193int * 3, m, 0int, 11315056103185710633687514851218296832968327808071903015965724607685327840579int);
    assert(mod_pow(3, 4034629180260625400030883nat, 21888242871839275222246405745257275088696311157297823662689037894645226208583nat) == 11315056103185710633687514851218296832968327808071903015965724607685327840579nat);
    lemma_fundamental_div_mod_converse(11315056103185710633687514851218296832968327808071903015965724607685327840579int * 11315056103185710633687514851218296832968327808071903015965724607685327840579int, m, 5849281523779152059116366078052232820126600640411323720690406607061402803973int, 934848378241223414557303682341381932585544403213807782168344831811279954982int);
    lemma_fundamental_div_mod_converse(934848378241223414557303682341381932585544403213807782168344831811279954982int * 3, m, 0int, 2804545134723670243671911047024145797756633209641423346505034495433839864946int);
    assert(mod_pow(3, 8069258360521250800061767nat, 21888242871839275222246405745257275088696311157297823662689037894645226208583nat) == 2804545134723670243671911047024145797756633209641423346505034495433839864946nat);
    lemma_fundamental_div_mod_converse(2804545134723670243671911047024145797756633209641423346505034495433839864946int * 2804545134723670243671911047024145797756633209641423346505034495433839864946int, m, 359346954378950187889892087410997803518779629647341680787791998660579160618int, 14818396266447138155255080083533921360398771201087165371655888355870792398622int);
    assert(mod_pow(3, 16138516721042501600123534nat, 21888242871839275222246405745257275088696311157297823662689037894645226208583nat) == 14818396266447138155255080083533921360398771201087165371655888355870792398622nat);
    lemma_fundamental_div_mod_converse(14818396266447138155255080083533921360398771201087165371655888355870792398622int * 14818396266447138155255080083533921360398771201087165371655888355870792398622int, m, 10032092077704668904325771730176725148594441777110806330203186997463922071712int, 3754120354181553418628237577664980677907644191007290026091565930151751594788int);
    lemma_fundamental_div_mod_converse(3754120354181553418628237577664980677907644191007290026091565930151751594788int * 3, m, 0int, 11262361062544660255884712732994942033722932573021870078274697790455254784364int);
    assert(mod_pow(3, 32277033442085003200247069nat, 21888242871839275222246405745257275088696311157297823662689037894645226208583nat) == 11262361062544660255884712732994942033722932573021870078274697790455254784364nat);
    lemma_fundamental_div_mod_converse(11262361062544660255884712732994942033722932573021870078274697790455254784364int * 11262361062544660255884712732994942033722932573021870078274697790455254784364int, m, 5794927324491242842163837191693965421874337964404549238716654404269902996665int, 13118385923971135723315786680476895394264040318038217772972969540964095508801int);
    lemma_fundamental_div_mod_converse(13118385923971135723315786680476895394264040318038217772972969540964095508801int * 3, m, 1int, 17466914900074131947700954296173411094095809796816829656229870728247060317820int);
    assert(mod_pow(3, 64554066884170006400494139nat, 21888242871839275222246405745257275088696311157297823662689037894645226208583nat) == 17466914900074131947700954296173411094095809796816829656229870728247060317820nat);
    lemma_fundamental_div_mod_converse(17466914900074131947700954296173411094095809796816829656229870728247060317820int * 17466914900074131947700954296173411094095809796816829656229870728247060317820int, m, 13938675567190225637425448866523473859797423821164237540774787771820655568307int, 12029250166543184394181017876333888739374940207905273127487801719066623373419int);
    assert(mod_pow(3, 129108133768340012800988278nat, 21888242871839275222246405745257275088696311157297823662689037894645226208583nat) == 12029250166543184394181017876333888739374940207905273127487801719066623373419nat);
    lemma_fundamental_div_mod_converse(12029250166543184394181017876333888739374940207905273127487801719066623373419int * 12029250166543184394181017876333888739374940207905273127487801719066623373419int, m, 6610985651819926437978956507361677526237701207743327719635651569002870550505int, 9221682651376101824550388262944006497058887234919258180029680791840349765146int);
    lemma_fundamental_div_mod_converse(9221682651376101824550388262944006497058887234919258180029680791840349765146int * 3, m, 1int, 5776805082289030251404759043574744402480350547459950877400004480875823086855int);
    assert(mod_pow(3, 258216267536680025601976557nat, 21888242871839275222246405745257275088696311157297823662689037894645226208583nat) == 5776805082289030251404759043574744402480350547459950877400004480875823086855nat);
    lemma_fundamental_div_mod_converse(5776805082289030251404759043574744402480350547459950877400004480875823086855int * 5776805082289030251404759043574744402480350547459950877400004480875823086855int, m, 1524630238898484725782990029035049145616236523698805869029202902803442153544int, 20767766382542579945304683399402233372572388136073673856659061519265217122873int);
    assert(mod_pow(3, 516432535073360051203953114nat, 21888242871839275222246405745257275088696311157297823662689037894645226208583nat) == 20767766382542579945304683399402233372572388136073673856659061519265217122873nat);
    lemma_fundamental_div_mod_converse(20767766382542579945304683399402233372572388136073673856659061519265217122873int * 20767766382542579945304683399402233372572388136073673856659061519265217122873int, m, 19704647972211734063293015389803735573864682516194396661073112938009664298866int, 16950810691413279483689335940848381242290584786070244794363336465109813407251int);
    assert(mod_pow(3, 1032865070146720102407906228nat, 21888242871839275222246405745257275088696311157297823662689037894645226208583nat) == 16950810691413279483689335940848381242290584786070244794363336465109813407251nat);
    lemma_fundamental_div_mod_converse(16950810691413279483689335940848381242290584786070244794363336465109813407251int * 16950810691413279483689335940848381242290584786070244794363336465109813407251int, m, 13127137924159296508173193532256959416617880418006439516997668766779696504137int, 12255473738193290176834943718640085024324834369413525497764794576338094969130int);
    assert(mod_pow(3, 2065730140293440204815812456nat, 21888242871839275222246405745257275088696311157297823662689037894645226208583nat) == 12255473738193290176834943718640085024324834369413525497764794576338094969130nat);
    lemma_fundamental_div_mod_converse(12255473738193290176834943718640085024324834369413525497764794576338094969130int * 12255473738193290176834943718640085024324834369413525497764794576338094969130int, m, 6861977794516511241681327394388442158361211685218246981075783720177896090032int, 15571389909827117362356849352864441679093300768643543685148524849928273812244int);
    lemma_fundamental_div_mod_converse(15571389909827117362356849352864441679093300768643543685148524849928273812244int * 3, m, 2int, 2937683985802801642577736568078774859887279991334983730067498760494369019566int);
    assert(mod_pow(3, 4131460280586880409631624913nat, 21888242871839275222246405745257275088696311157297823662689037894645226208583nat) == 2937683985802801642577736568078774859887279991334983730067498760494369019566nat);
    lemma_fundamental_div_mod_converse(2937683985802801642577736568078774859887279991334983730067498760494369019566int * 2937683985802801642577736568078774859887279991334983730067498760494369019566int, m, 394275011062916583221838225244581445288144168073476237281958376918271759150int, 18527266394133685487139389560325910054820968076557447178058026913451852043906int);
    assert(mod_pow(3, 8262920561173760819263249826nat, 21888242871839275222246405745257275088696311157297823662689037894645226208583nat) == 18527266394133685487139389560325910054820968076557447178058026913451852043906nat);
    lemma_fundamental_div_mod_converse(18527266394133685487139389560325910054820968076557447178058026913451852043906int * 18527266394133685487139389560325910054820968076557447178058026913451852043906int, m, 15682373502937616823535246382855035529506464909997207918836393377947563226166int, 6508276116687213430869572570187294416116453556034886209080836931265832354058int);
    assert(mod_pow(3, 16525841122347521638526499652nat, 21888242871839275222246405745257275088696311157297823662689037894645226208583nat) == 6508276116687213430869572570187294416116453556034886209080836931265832354058nat);
    lemma_fundamental_div_mod_converse(6508276116687213430869572570187294416116453556034886209080836931265832354058int * 6508276116687213430869572570187294416116453556034886209080836931265832354058int, m, 1935178545809048262995108173048608091453623818319196125410150393821269624429int, 20532605206523667336847396332267057379148197419272878789923850820309842793257int);
    lemma_fundamental_div_mod_converse(20532605206523667336847396332267057379148197419272878789923850820309842793257int * 3, m, 2int, 17821329875892451566049377506286621960051969943222989044393476671639075962605int);
    assert(mod_pow(3, 33051682244695043277052999305nat, 21888242871839275222246405745257275088696311157297823662689037894645226208583nat) == 17821329875892451566049377506286621960051969943222989044393476671639075962605nat);
    lemma_fundamental_div_mod_converse(17821329875892451566049377506286621960051969943222989044393476671639075962605int * 17821329875892451566049377506286621960051969943222989044393476671639075962605int, m, 14510063708859461430351311320340792464543449583061289048179211029784672667333int, 16414909732712922243741853086003151592031384888345491319577513158526130066886int);
    lemma_fundamental_div_mod_converse(16414909732712922243741853086003151592031384888345491319577513158526130066886int * 3, m, 2int, 5468243454460216286732747767494904598701532350440826633354463686287937783492int);
    assert(mod_pow(3, 66103364489390086554105998611nat, 21888242871839275222246405745257275088696311157297823662689037894645226208583nat) == 5468243454460216286732747767494904598701532350440826633354463686287937783492nat);
    lemma_fundamental_div_mod_converse(5468243454460216286732747767494904598701532350440826633354463686287937783492int * 5468243454460216286732747767494904598701532350440826633354463686287937783492int, m, 1366107213462875485822792349190915083265021307783732797704404675336115987460int, 11607269774020560438960683184212705139701713451961521819966731188338895344884int);
    lemma_fundamental_div_mod_converse(11607269774020560438960683184212705139701713451961521819966731188338895344884int * 3, m, 1int, 12933566450222406094635643807380840330408829198586741797211155670371459826069int);
    assert(mod_pow(3, 132206728978780173108211997223nat, 21888242871839275222246405745257275088696311157297823662689037894645226208583nat) == 12933566450222406094635643807380840330408829198586741797211155670371459826069nat);
    lemma_fundamental_div_mod_converse(12933566450222406094635643807380840330408829198586741797211155670371459826069int * 12933566450222406094635643807380840330408829198586741797211155670371459826069int, m, 7642328445538774541092767115468007182924904033991467283864327852891066704352int, 9377737674961910499356081656096350438238168713233945140538065195621786139545int);
    lemma_fundamental_div_mod_converse(9377737674961910499356081656096350438238168713233945140538065195621786139545int * 3, m, 1int, 6244970153046456275821839223031776226018194982404011758925157692220132210052int);
    assert(mod_pow(3, 264413457957560346216423994447nat, 21888242871839275222246405745257275088696311157297823662689037894645226208583nat) == 6244970153046456275821839223031776226018194982404011758925157692220132210052nat);
    lemma_fundamental_div_mod_converse(6244970153046456275821839223031776226018194982404011758925157692220132210052int * 6244970153046456275821839223031776226018194982404011758925157692220132210052int, m, 1781762585548463797054487813827405032127613426543718285169508591381167605283int, 7219347423472458301086188677456939134402375625636151408255870523966279098715int);
    lemma_fundamental_div_mod_converse(7219347423472458301086188677456939134402375625636151408255870523966279098715int * 3, m, 0int, 21658042270417374903258566032370817403207126876908454224767611571898837296145int);
    assert(mod_pow(3, 528826915915120692432847988895nat, 21888242871839275222246405745257275088696311157297823662689037894645226208583nat) == 21658042270417374903258566032370817403207126876908454224767611571898837296145nat);
    lemma_fundamental_div_mod_converse(21658042270417374903258566032370817403207126876908454224767611571898837296145int * 21658042270417374903258566032370817403207126876908454224767611571898837296145int, m, 21430262709240929045267789395287623514293832099918224741180931232641604716520int, 21348887725424621842690169838998978723969628631399800556420720746084325969865int);
    assert(mod_pow(3, 1057653831830241384865695977790nat, 21888242871839275222246405745257275088696311157297823662689037894645226208583nat) == 21348887725424621842690169838998978723969628631399800556420720746084325969865nat);
    lemma_fundamental_div_mod_converse(21348887725424621842690169838998978723969628631399800556420720746084325969865int * 21348887725424621842690169838998978723969628631399800556420720746084325969865int, m, 20822823000523805011737993777943543686850324857159029130283911685452812454838int, 1952663535613763132197617067544620288910745780484985602990420812389232643671int);
    assert(mod_pow(3, 2115307663660482769731391955580nat, 21888242871839275222246405745257275088696311157297823662689037894645226208583nat) == 1952663535613763132197617067544620288910745780484985602990420812389232643671nat);
    lemma_fundamental_div_mod_converse(1952663535613763132197617067544620288910745780484985602990420812389232643671int * 1952663535613763132197617067544620288910745780484985602990420812389232643671int, m, 174198308454498767521143260426212047012701097027431531039786642837484868974int, 8993629601426395801672365424034902736459572016484379592591776807391107152399int);
    assert(mod_pow(3, 4230615327320965539462783911160nat, 21888242871839275222246405745257275088696311157297823662689037894645226208583nat) == 8993629601426395801672365424034902736459572016484379592591776807391107152399nat);
    lemma_fundamental_div_mod_converse(8993629601426395801672365424034902736459572016484379592591776807391107152399int * 8993629601426395801672365424034902736459572016484379592591776807391107152399int, m, 3695379929821488236565784702477850955182514097977251770492646848635039375008int, 6370205852645390969087766996759624463131687587337670168311926870324846161537int);
    lemma_fundamental_div_mod_converse(6370205852645390969087766996759624463131687587337670168311926870324846161537int * 3, m, 0int, 19110617557936172907263300990278873389395062762013010504935780610974538484611int);
    assert(mod_pow(3, 8461230654641931078925567822321nat, 21888242871839275222246405745257275088696311157297823662689037894645226208583nat) == 19110617557936172907263300990278873389395062762013010504935780610974538484611nat);
    lemma_fundamental_div_mod_converse(19110617557936172907263300990278873389395062762013010504935780610974538484611int * 19110617557936172907263300990278873389395062762013010504935780610974538484611int, m, 16685473821910728573419860120200431864189098076804792514052011476716784388408int, 9681271463767032138833772291996573783342082041627068909739538843925988515457int);
    lemma_fundamental_div_mod_converse(9681271463767032138833772291996573783342082041627068909739538843925988515457int * 3, m, 1int, 7155571519461821194254911130732446261329934967583383066529578637132739337788int);
    assert(mod_pow(3, 16922461309283862157851135644643nat, 21888242871839275222246405745257275088696311157297823662689037894645226208583nat) == 7155571519461821194254911130732446261329934967583383066529578637132739337788nat);
    lemma_fundamental_div_mod_converse(7155571519461821194254911130732446261329934967583383066529578637132739337788int * 7155571519461821194254911130732446261329934967583383066529578637132739337788int, m, 2339256013830525488199954119123509446292057273786361033182238229721114557848int, 29478552651424452832274605969198358584289948802390288563377975125297123560int);
    assert(mod_pow(3, 33844922618567724315702271289286nat, 21888242871839275222246405745257275088696311157297823662689037894645226208583nat) == 29478552651424452832274605969198358584289948802390288563377975125297123560nat);
    lemma_fundamental_div_mod_converse(29478552651424452832274605969198358584289948802390288563377975125297123560int * 29478552651424452832274605969198358584289948802390288563377975125297123560int, m, 39700997083727195407108985757507307195819825791714988870611160797545241int, 7814122873491056544811205334983614807597721961503430109150744040106062070097int);
    lemma_fundamental_div_mod_converse(7814122873491056544811205334983614807597721961503430109150744040106062070097int * 3, m, 1int, 1554125748633894412187210259693569334096854727212466664763194225672960001708int);
    assert(mod_pow(3, 67689845237135448631404542578573nat, 21888242871839275222246405745257275088696311157297823662689037894645226208583nat) == 1554125748633894412187210259693569334096854727212466664763194225672960001708nat);
    lemma_fundamental_div_mod_converse(1554125748633894412187210259693569334096854727212466664763194225672960001708int * 1554125748633894412187210259693569334096854727212466664763194225672960001708int, m, 110347224156321865783206479706065269175507962168450098740253288239640816024int, 62742262892367126375020195892377040434330361456474822366116993929610183272int);
    assert(mod_pow(3, 135379690474270897262809085157146nat, 21888242871839275222246405745257275088696311157297823662689037894645226208583nat) == 62742262892367126375020195892377040434330361456474822366116993929610183272nat);
    lemma_fundamental_div_mod_converse(62742262892367126375020195892377040434330361456474822366116993929610183272int * 62742262892367126375020195892377040434330361456474822366116993929610183272int, m, 179849592125990330086641930505542214502427145248143548860315652995967343int, 21188855326662335579353390861248805565751509484210656881657483519289054321015int);
    lemma_fundamental_div_mod_converse(21188855326662335579353390861248805565751509484210656881657483519289054321015int * 3, m, 2int, 19790080236308456293567361093231866519861906138036323319594374768576710545879int);
    assert(mod_pow(3, 270759380948541794525618170314293nat, 21888242871839275222246405745257275088696311157297823662689037894645226208583nat) == 19790080236308456293567361093231866519861906138036323319594374768576710545879nat);
    lemma_fundamental_div_mod_converse(19790080236308456293567361093231866519861906138036323319594374768576710545879int * 19790080236308456293567361093231866519861906138036323319594374768576710545879int, m, 17893043222003335448428113588226165789620242976220342617320485677549584321795int, 11788215955528223888976516139887480113940817385218507658045742202606900916156int);
    assert(mod_pow(3, 541518761897083589051236340628586nat, 21888242871839275222246405745257275088696311157297823662689037894645226208583nat) == 11788215955528223888976516139887480113940817385218507658045742202606900916156nat);
    lemma_fundamental_div_mod_converse(11788215955528223888976516139887480113940817385218507658045742202606900916156int * 11788215955528223888976516139887480113940817385218507658045742202606900916156int, m, 6348706756765495335804547319628499340321175328086929164326393161206222371313int, 15115851044199484120372995392100789367867110171028011110208038602709528236857int);
    lemma_fundamental_div_mod_converse(15115851044199484120372995392100789367867110171028011110208038602709528236857int * 3, m, 2int, 1571067388919901916626174685787817926208708198488386005246040018838132293405int);
    assert(mod_pow(3, 1083037523794167178102472681257173nat, 21888242871839275222246405745257275088696311157297823662689037894645226208583nat) == 1571067388919901916626174685787817926208708198488386005246040018838132293405nat);
    lemma_fundamental_div_mod_converse(1571067388919901916626174685787817926208708198488386005246040018838132293405int * 1571067388919901916626174685787817926208708198488386005246040018838132293405int, m, 112766143677214706162139565458260937134600657542487924309615343012327927582int, 681311413486818014799082935078420047826431678981405738505520577905355657719int);
    assert(mod_pow(3, 2166075047588334356204945362514346nat, 21888242871839275222246405745257275088696311157297823662689037894645226208583nat) == 681311413486818014799082935078420047826431678981405738505520577905355657719nat);
    lemma_fundamental_div_mod_converse(681311413486818014799082935078420047826431678981405738505520577905355657719int * 681311413486818014799082935078420047826431678981405738505520577905355657719int, m, 21207058276231576348824554130424259696462646349349584571926510497373179716int, 2812825031176502043173546982873695567434080449273540320394030256777323580533int);
    lemma_fundamental_div_mod_converse(2812825031176502043173546982873695567434080449273540320394030256777323580533int * 3, m, 0int, 8438475093529506129520640948621086702302241347820620961182090770331970741599int);
    assert(mod_pow(3, 4332150095176668712409890725028693nat, 21888242871839275222246405745257275088696311157297823662689037894645226208583nat) == 8438475093529506129520640948621086702302241347820620961182090770331970741599nat);
    lemma_fundamental_div_mod_converse(8438475093529506129520640948621086702302241347820620961182090770331970741599int * 8438475093529506129520640948621086702302241347820620961182090770331970741599int, m, 3253247066064476216218250102190664909553629953261570939199370308013930300062int, 2601300686326397554287054746797719356414538490420988256308758052362239244655int);
    assert(mod_pow(3, 8664300190353337424819781450057386nat, 21888242871839275222246405745257275088696311157297823662689037894645226208583nat) == 2601300686326397554287054746797719356414538490420988256308758052362239244655nat);
    lemma_fundamental_div_mod_converse(2601300686326397554287054746797719356414538490420988256308758052362239244655int * 2601300686326397554287054746797719356414538490420988256308758052362239244655int, m, 309150684241908439971140831854013527513918289440424866567059309493048070363int, 4033370977688277088486748384310612849059058980191082032896972729742247543396int);
    lemma_fundamental_div_mod_converse(4033370977688277088486748384310612849059058980191082032896972729742247543396int * 3, m, 0int, 12100112933064831265460245152931838547177176940573246098690918189226742630188int);
    assert(mod_pow(3, 17328600380706674849639562900114773nat, 21888242871839275222246405745257275088696311157297823662689037894645226208583nat) == 12100112933064831265460245152931838547177176940573246098690918189226742630188nat);
    lemma_fundamental_div_mod_converse(12100112933064831265460245152931838547177176940573246098690918189226742630188int * 12100112933064831265460245152931838547177176940573246098690918189226742630188int, m, 6689104002098442107894602597082334940290706335512370481427240096511787039277int, 7734659393852215010750851513008215847760451205819942592736881847954513400853int);
    lemma_fundamental_div_mod_converse(7734659393852215010750851513008215847760451205819942592736881847954513400853int * 3, m, 1int, 1315735309717369810006148793767372454585042460162004115521607649218313993976int);
    assert(mod_pow(3, 34657200761413349699279125800229547nat, 21888242871839275222246405745257275088696311157297823662689037894645226208583nat) == 1315735309717369810006148793767372454585042460162004115521607649218313993976nat);
    lemma_fundamental_div_mod_converse(1315735309717369810006148793767372454585042460162004115521607649218313993976int * 1315735309717369810006148793767372454585042460162004115521607649218313993976int, m, 79090834991799103957897891014789439262931451267584649939176733333066079275int, 1074594000546287832424493880484085613742568304907579729559535086539800871251int);
    assert(mod_pow(3, 69314401522826699398558251600459094nat, 21888242871839275222246405745257275088696311157297823662689037894645226208583nat) == 1074594000546287832424493880484085613742568304907579729559535086539800871251nat);
    lemma_fundamental_div_mod_converse(1074594000546287832424493880484085613742568304907579729559535086539800871251int * 1074594000546287832424493880484085613742568304907579729559535086539800871251int, m, 52756736699762373190110394665250211205607033300661897818667818931251559695int, 18029262804100224332896681232124124988261363222547588670607928452328532442816int);
    assert(mod_pow(3, 138628803045653398797116503200918188nat, 21888242871839275222246405745257275088696311157297823662689037894645226208583nat) == 18029262804100224332896681232124124988261363222547588670607928452328532442816nat);
    lemma_fundamental_div_mod_converse(18029262804100224332896681232124124988261363222547588670607928452328532442816int * 18029262804100224332896681232124124988261363222547588670607928452328532442816int, m, 14850635528972339026648363105151656656590315942351577008287670618089730185147int, 21829995590748228548264126677715110619112383747442512323068625776798879493155int);
    assert(mod_pow(3, 277257606091306797594233006401836376nat, 21888242871839275222246405745257275088696311157297823662689037894645226208583nat) == 21829995590748228548264126677715110619112383747442512323068625776798879493155nat);
    lemma_fundamental_div_mod_converse(21829995590748228548264126677715110619112383747442512323068625776798879493155int * 21829995590748228548264126677715110619112383747442512323068625776798879493155int, m, 21771903312768869035035319028755194591854896290095492924206332185888652468714int, 15107531748976901922412718156207008784057347530379898154532115836332446081763int);
    lemma_fundamental_div_mod_converse(15107531748976901922412718156207008784057347530379898154532115836332446081763int * 3, m, 2int, 1546109503252155322745342978106476174779420276544047138218271719706885828123int);
    assert(mod_pow(3, 554515212182613595188466012803672753nat, 21888242871839275222246405745257275088696311157297823662689037894645226208583nat) == 1546109503252155322745342978106476174779420276544047138218271719706885828123nat);
    lemma_fundamental_div_mod_converse(1546109503252155322745342978106476174779420276544047138218271719706885828123int * 1546109503252155322745342978106476174779420276544047138218271719706885828123int, m, 109211808825554936679631306973848233307668238243972578506937268685247008445int, 3150617102103725941426672683816118593631636004078433134032565599329165219694int);
    assert(mod_pow(3, 1109030424365227190376932025607345506nat, 21888242871839275222246405745257275088696311157297823662689037894645226208583nat) == 3150617102103725941426672683816118593631636004078433134032565599329165219694nat);
    lemma_fundamental_div_mod_converse(3150617102103725941426672683816118593631636004078433134032565599329165219694int * 3150617102103725941426672683816118593631636004078433134032565599329165219694int, m, 453503197227378108862366076951078513636696268148038506849847393637684691456int, 7109849214153831813502277052990862626536949701184808821083471745624231486788int);
    lemma_fundamental_div_mod_converse(7109849214153831813502277052990862626536949701184808821083471745624231486788int * 3, m, 0int, 21329547642461495440506831158972587879610849103554426463250415236872694460364int);
    assert(mod_pow(3, 2218060848730454380753864051214691013nat, 21888242871839275222246405745257275088696311157297823662689037894645226208583nat) == 21329547642461495440506831158972587879610849103554426463250415236872694460364nat);
    lemma_fundamental_div_mod_converse(21329547642461495440506831158972587879610849103554426463250415236872694460364int * 21329547642461495440506831158972587879610849103554426463250415236872694460364int, m, 20785113053426439557008070513795816312682046715372627273448071028167810590314int, 5304496182331660573742882148977861457388388575240347873024649969635843547434int);
    assert(mod_pow(3, 4436121697460908761507728102429382026nat, 21888242871839275222246405745257275088696311157297823662689037894645226208583nat) == 5304496182331660573742882148977861457388388575240347873024649969635843547434nat);
    lemma_fundamental_div_mod_converse(5304496182331660573742882148977861457388388575240347873024649969635843547434int * 5304496182331660573742882148977861457388388575240347873024649969635843547434int, m, 1285515695029691730239427636039936623914051014050879532887788608100548068445int, 2794403009460471196683889812839073816616823555349596933487149628342077520921int);
    lemma_fundamental_div_mod_converse(2794403009460471196683889812839073816616823555349596933487149628342077520921int * 3, m, 0int, 8383209028381413590051669438517221449850470666048790800461448885026232562763int);
    assert(mod_pow(3, 8872243394921817523015456204858764053nat, 21888242871839275222246405745257275088696311157297823662689037894645226208583nat) == 8383209028381413590051669438517221449850470666048790800461448885026232562763nat);
    lemma_fundamental_div_mod_converse(8383209028381413590051669438517221449850470666048790800461448885026232562763int * 8383209028381413590051669438517221449850470666048790800461448885026232562763int, m, 3210773657119519528403796422997267149905015684389220589334821626085036432282int, 2739424777005102776613496900578178200699770280590130841740041000374847517763int);
    lemma_fundamental_div_mod_converse(2739424777005102776613496900578178200699770280590130841740041000374847517763int * 3, m, 0int, 8218274331015308329840490701734534602099310841770392525220123001124542553289int);
    assert(mod_pow(3, 17744486789843635046030912409717528107nat, 21888242871839275222246405745257275088696311157297823662689037894645226208583nat) == 8218274331015308329840490701734534602099310841770392525220123001124542553289nat);
    lemma_fundamental_div_mod_converse(8218274331015308329840490701734534602099310841770392525220123001124542553289int * 8218274331015308329840490701734534602099310841770392525220123001124542553289int, m, 3085676332051303926706806974523293031704469536506189380280569171851658143602int, 14253575257250636499487925057371058463168991859524741891275844271588785781555int);
    assert(mod_pow(3, 35488973579687270092061824819435056214nat, 21888242871839275222246405745257275088696311157297823662689037894645226208583nat) == 14253575257250636499487925057371058463168991859524741891275844271588785781555nat);
    lemma_fundamental_div_mod_converse(14253575257250636499487925057371058463168991859524741891275844271588785781555int * 14253575257250636499487925057371058463168991859524741891275844271588785781555int, m, 9281896623848800796341379227248102672568025789379458045923142902951645287141int, 21834049808928909408677940075568078635591199008989473417622809913464384486822int);
    lemma_fundamental_div_mod_converse(21834049808928909408677940075568078635591199008989473417622809913464384486822int * 3, m, 2int, 21725663683108177781541008736189685729380974712372772927490353951102701043300int);
    assert(mod_pow(3, 70977947159374540184123649638870112429nat, 21888242871839275222246405745257275088696311157297823662689037894645226208583nat) == 21725663683108177781541008736189685729380974712372772927490353951102701043300nat);
    lemma_fundamental_div_mod_converse(21725663683108177781541008736189685729380974712372772927490353951102701043300int * 21725663683108177781541008736189685729380974712372772927490353951102701043300int, m, 21564292082979017336487095776998838956166412855141421843887721963858393401654int, 13717459510647510770868884520833804922853392558565207786127255768033773693718int);
    lemma_fundamental_div_mod_converse(13717459510647510770868884520833804922853392558565207786127255768033773693718int * 3, m, 1int, 19264135660103257090360247817244139679863866518397799695692729409456094872571int);
    assert(mod_pow(3, 141955894318749080368247299277740224859nat, 21888242871839275222246405745257275088696311157297823662689037894645226208583nat) == 19264135660103257090360247817244139679863866518397799695692729409456094872571nat);
    lemma_fundamental_div_mod_converse(19264135660103257090360247817244139679863866518397799695692729409456094872571int * 19264135660103257090360247817244139679863866518397799695692729409456094872571int, m, 16954623763258605207666556892113192617475726554828290660077367445139763609453int, 6554050367847354191373720060884104042817438926681507869484277621322399614942int);
    lemma_fundamental_div_mod_converse(6554050367847354191373720060884104042817438926681507869484277621322399614942int * 3, m, 0int, 19662151103542062574121160182652312128452316780044523608452832863967198844826int);
    assert(mod_pow(3, 283911788637498160736494598555480449719nat, 21888242871839275222246405745257275088696311157297823662689037894645226208583nat) == 19662151103542062574121160182652312128452316780044523608452832863967198844826nat);
    lemma_fundamental_div_mod_converse(19662151103542062574121160182652312128452316780044523608452832863967198844826int * 19662151103542062574121160182652312128452316780044523608452832863967198844826int, m, 17662458712750669803504613432706108965397193162326715006654342459623886928964int, 8817720125554114631811072419640170108640027682140489705696753935815658872264int);
    lemma_fundamental_div_mod_converse(8817720125554114631811072419640170108640027682140489705696753935815658872264int * 3, m, 1int, 4564917504823068673186811513663235237223771889123645454401223912801750408209int);
    assert(mod_pow(3, 567823577274996321472989197110960899439nat, 21888242871839275222246405745257275088696311157297823662689037894645226208583nat) == 4564917504823068673186811513663235237223771889123645454401223912801750408209nat);
    lemma_fundamental_div_mod_converse(4564917504823068673186811513663235237223771889123645454401223912801750408209int * 4564917504823068673186811513663235237223771889123645454401223912801750408209int, m, 952039501199531807733928830777280907733004152663765200084599555114107078007int, 20371575324499198925052052507573521548721922965072644724706649141356900653600int);
    assert(mod_pow(3, 1135647154549992642945978394221921798878nat, 21888242871839275222246405745257275088696311157297823662689037894645226208583nat) == 20371575324499198925052052507573521548721922965072644724706649141356900653600nat);
    lemma_fundamental_div_mod_converse(20371575324499198925052052507573521548721922965072644724706649141356900653600int * 20371575324499198925052052507573521548721922965072644724706649141356900653600int, m, 18959999833320196710506566826743163059876469483521949370381303392183977706565int, 20099892221669640659296088044608018727008007694361989231732966023376534512605int);
    assert(mod_pow(3, 2271294309099985285891956788443843597756nat, 21888242871839275222246405745257275088696311157297823662689037894645226208583nat) == 20099892221669640659296088044608018727008007694361989231732966023376534512605nat);
    lemma_fundamental_div_mod_converse(20099892221669640659296088044608018727008007694361989231732966023376534512605int * 20099892221669640659296088044608018727008007694361989231732966023376534512605int, m, 18457656454576201110158436105313657183486211480570008743630134198015275974641int, 8245265185293311427060768165640316296271372055440817714120752324662419342322int);
    lemma_fundamental_div_mod_converse(8245265185293311427060768165640316296271372055440817714120752324662419342322int * 3, m, 1int, 2847552684040659058935898751663673800117805009024629479673219079342031818383int);
    assert(mod_pow(3, 4542588618199970571783913576887687195513nat, 21888242871839275222246405745257275088696311157297823662689037894645226208583nat) == 2847552684040659058935898751663673800117805009024629479673219079342031818383nat);
    lemma_fundamental_div_mod_converse(2847552684040659058935898751663673800117805009024629479673219079342031818383int * 2847552684040659058935898751663673800117805009024629479673219079342031818383int, m, 370452591186265341765163053992468512901742751507375734629325430841886802881int, 5235438124529654699540040327465265960964969797202871057491855117410385407066int);
    assert(mod_pow(3, 9085177236399941143567827153775374391026nat, 21888242871839275222246405745257275088696311157297823662689037894645226208583nat) == 5235438124529654699540040327465265960964969797202871057491855117410385407066nat);
    lemma_fundamental_div_mod_converse(5235438124529654699540040327465265960964969797202871057491855117410385407066int * 5235438124529654699540040327465265960964969797202871057491855117410385407066int, m, 1252261888552195780983600499175244396555726771351973037597088543280820752151int, 11005306314960666898596063254325133226011614407332459351444812011910450816323int);
    assert(mod_pow(3, 18170354472799882287135654307550748782052nat, 21888242871839275222246405745257275088696311157297823662689037894645226208583nat) == 11005306314960666898596063254325133226011614407332459351444812011910450816323nat);
    lemma_fundamental_div_mod_converse(11005306314960666898596063254325133226011614407332459351444812011910450816323int * 11005306314960666898596063254325133226011614407332459351444812011910450816323int, m, 5533416628976561491636087817595846461011922504920849816437956013262647167662int, 7173944579187740028405277901618633718988121055383451418897920456601298797383int);
    lemma_fundamental_div_mod_converse(7173944579187740028405277901618633718988121055383451418897920456601298797383int * 3, m, 0int, 21521833737563220085215833704855901156964363166150354256693761369803896392149int);
    assert(mod_pow(3, 36340708945599764574271308615101497564105nat, 21888242871839275222246405745257275088696311157297823662689037894645226208583nat) == 21521833737563220085215833704855901156964363166150354256693761369803896392149nat);
    lemma_fundamental_div_mod_converse(21521833737563220085215833704855901156964363166150354256693761369803896392149int * 21521833737563220085215833704855901156964363166150354256693761369803896392149int, m, 21161558291334534767187134639287882189791766258365528189139419763237196394328int, 3414092840551824597026534386750777028060673251938010466917172009365142720977int);
    lemma_fundamental_div_mod_converse(3414092840551824597026534386750777028060673251938010466917172009365142720977int * 3, m, 0int, 10242278521655473791079603160252331084182019755814031400751516028095428162931int);
    assert(mod_pow(3, 72681417891199529148542617230202995128211nat, 21888242871839275222246405745257275088696311157297823662689037894645226208583nat) == 10242278521655473791079603160252331084182019755814031400751516028095428162931nat);
    lemma_fundamental_div_mod_converse(10242278521655473791079603160252331084182019755814031400751516028095428162931int * 10242278521655473791079603160252331084182019755814031400751516028095428162931int, m, 4792722281519069345232894910624186114333837667511371179069240326305140586846int, 12413361885205063936122792140387263300909629085692514773382886098949260411543int);
    lemma_fundamental_div_mod_converse(12413361885205063936122792140387263300909629085692514773382886098949260411543int * 3, m, 1int, 15351842783775916586121970675904514814032576099779720657459620402202555026046int);
    assert(mod_pow(3, 145362835782399058297085234460405990256423nat, 21888242871839275222246405745257275088696311157297823662689037894645226208583nat) == 15351842783775916586121970675904514814032576099779720657459620402202555026046nat);
    lemma_fundamental_div_mod_converse(15351842783775916586121970675904514814032576099779720657459620402202555026046int * 15351842783775916586121970675904514814032576099779720657459620402202555026046int, m, 10767382207778312388221035077716850803460904567775174517425574567304245884011int, 1051788548026813886582602397656550746706364126794660080617479948095027727703int);
    lemma_fundamental_div_mod_converse(1051788548026813886582602397656550746706364126794660080617479948095027727703int * 3, m, 0int, 3155365644080441659747807192969652240119092380383980241852439844285083183109int);
    assert(mod_pow(3, 290725671564798116594170468920811980512847nat, 21888242871839275222246405745257275088696311157297823662689037894645226208583nat) == 3155365644080441659747807192969652240119092380383980241852439844285083183109nat);
    lemma_fundamental_div_mod_converse(3155365644080441659747807192969652240119092380383980241852439844285083183109int * 3155365644080441659747807192969652240119092380383980241852439844285083183109int, m, 454871247826507099589580218815847852070449520900278142187147048316414181683int, 7546567236259120807045590771033209893861351592876233148904079908345006920692int);
    lemma_fundamental_div_mod_converse(7546567236259120807045590771033209893861351592876233148904079908345006920692int * 3, m, 1int, 751458836938087198890366567842354592887743621330875784023201830389794553493int);
    assert(mod_pow(3, 581451343129596233188340937841623961025695nat, 21888242871839275222246405745257275088696311157297823662689037894645226208583nat) == 751458836938087198890366567842354592887743621330875784023201830389794553493nat);
    lemma_fundamental_div_mod_converse(751458836938087198890366567842354592887743621330875784023201830389794553493int * 751458836938087198890366567842354592887743621330875784023201830389794553493int, m, 25798799242074182712121098717868191378462645138893450829516788732103340346int, 13506838795670191739974399872849450146575186248661484332147253002408003111331int);
    assert(mod_pow(3, 1162902686259192466376681875683247922051390nat, 21888242871839275222246405745257275088696311157297823662689037894645226208583nat) == 13506838795670191739974399872849450146575186248661484332147253002408003111331nat);
    lemma_fundamental_div_mod_converse(13506838795670191739974399872849450146575186248661484332147253002408003111331int * 13506838795670191739974399872849450146575186248661484332147253002408003111331int, m, 8334825930085787502852898840480332895204720594017536482222317935394022211563int, 2681854064027875061579843571183697628108995411041789777249208088493188146332int);
    assert(mod_pow(3, 2325805372518384932753363751366495844102780nat, 21888242871839275222246405745257275088696311157297823662689037894645226208583nat) == 2681854064027875061579843571183697628108995411041789777249208088493188146332nat);
    lemma_fundamental_div_mod_converse(2681854064027875061579843571183697628108995411041789777249208088493188146332int * 2681854064027875061579843571183697628108995411041789777249208088493188146332int, m, 328593814627133444674628164217137292263264926116774409852555291598238307939int, 19043561654636926844949670523058895562026774312779748831841075734804046213787int);
    assert(mod_pow(3, 4651610745036769865506727502732991688205560nat, 21888242871839275222246405745257275088696311157297823662689037894645226208583nat) == 19043561654636926844949670523058895562026774312779748831841075734804046213787nat);
    lemma_fundamental_div_mod_converse(19043561654636926844949670523058895562026774312779748831841075734804046213787int * 19043561654636926844949670523058895562026774312779748831841075734804046213787int, m, 16568586277911843034550727297739628123927507947500557293655145901659634103842int, 8362134808047158053617427950468388400642809517669692360728534316191535205483int);
    lemma_fundamental_div_mod_converse(8362134808047158053617427950468388400642809517669692360728534316191535205483int * 3, m, 1int, 3198161552302198938605878106147890113232117395711253419496565053929379407866int);
    assert(mod_pow(3, 9303221490073539731013455005465983376411121nat, 21888242871839275222246405745257275088696311157297823662689037894645226208583nat) == 3198161552302198938605878106147890113232117395711253419496565053929379407866nat);
    lemma_fundamental_div_mod_converse(3198161552302198938605878106147890113232117395711253419496565053929379407866int * 3198161552302198938605878106147890113232117395711253419496565053929379407866int, m, 467293668775182458975043703406496821529412256855068013571213776590331236977int, 3785793502529220165167649301282150383438867160443726418120665872574578300365int);
    assert(mod_pow(3, 18606442980147079462026910010931966752822242nat, 21888242871839275222246405745257275088696311157297823662689037894645226208583nat) == 3785793502529220165167649301282150383438867160443726418120665872574578300365nat);
    lemma_fundamental_div_mod_converse(3785793502529220165167649301282150383438867160443726418120665872574578300365int * 3785793502529220165167649301282150383438867160443726418120665872574578300365int, m, 654791365744203248342519142321868204496436017117233095904766023296369806653int, 19889321307960810327148738727805945871276913965570034803176258934140200030526int);
    lemma_fundamental_div_mod_converse(19889321307960810327148738727805945871276913965570034803176258934140200030526int * 3, m, 2int, 15891478180203880536953404692903287436438119582114457084150701013130147674412int);
    assert(mod_pow(3, 37212885960294158924053820021863933505644485nat, 21888242871839275222246405745257275088696311157297823662689037894645226208583nat) == 15891478180203880536953404692903287436438119582114457084150701013130147674412nat);
    lemma_fundamental_div_mod_converse(15891478180203880536953404692903287436438119582114457084150701013130147674412int * 15891478180203880536953404692903287436438119582114457084150701013130147674412int, m, 11537658834954032497484879702267075846593434902878310304184310518345382177985int, 13571648705671329830804536947837831672165819052607713180027603069451518900489int);
    lemma_fundamental_div_mod_converse(13571648705671329830804536947837831672165819052607713180027603069451518900489int * 3, m, 1int, 18826703245174714270167205098256219927801146000525315877393771313709330492884int);
    assert(mod_pow(3, 74425771920588317848107640043727867011288971nat, 21888242871839275222246405745257275088696311157297823662689037894645226208583nat) == 18826703245174714270167205098256219927801146000525315877393771313709330492884nat);
    lemma_fundamental_div_mod_converse(18826703245174714270167205098256219927801146000525315877393771313709330492884int * 18826703245174714270167205098256219927801146000525315877393771313709330492884int, m, 16193385515558655929524100001136603271867135221166722644157875149376528483796int, 15171783268762859605077232758893974135061557682083989135388206004859743016388int);
    lemma_fundamental_div_mod_converse(15171783268762859605077232758893974135061557682083989135388206004859743016388int * 3, m, 2int, 1738864062610028370738886786167372227792050731656320080786542225288776631998int);
    assert(mod_pow(3, 148851543841176635696215280087455734022577943nat, 21888242871839275222246405745257275088696311157297823662689037894645226208583nat) == 1738864062610028370738886786167372227792050731656320080786542225288776631998nat);
    lemma_fundamental_div_mod_converse(1738864062610028370738886786167372227792050731656320080786542225288776631998int * 1738864062610028370738886786167372227792050731656320080786542225288776631998int, m, 138140290471958503641624903398586440623389037350087964435329437133177980580int, 725903459793516517490260137053586881077349641637899638790194520734514153864int);
    lemma_fundamental_div_mod_converse(725903459793516517490260137053586881077349641637899638790194520734514153864int * 3, m, 0int, 2177710379380549552470780411160760643232048924913698916370583562203542461592int);
    assert(mod_pow(3, 297703087682353271392430560174911468045155887nat, 21888242871839275222246405745257275088696311157297823662689037894645226208583nat) == 2177710379380549552470780411160760643232048924913698916370583562203542461592nat);
    lemma_fundamental_div_mod_converse(2177710379380549552470780411160760643232048924913698916370583562203542461592int * 2177710379380549552470780411160760643232048924913698916370583562203542461592int, m, 216665290321829746830376783083195186127532584972105004341155754315494643586int, 8375812648721451666063383350146659414678047281329037513414537903691116075826int);
    assert(mod_pow(3, 595406175364706542784861120349822936090311774nat, 21888242871839275222246405745257275088696311157297823662689037894645226208583nat) == 8375812648721451666063383350146659414678047281329037513414537903691116075826nat);
    lemma_fundamental_div_mod_converse(8375812648721451666063383350146659414678047281329037513414537903691116075826int * 8375812648721451666063383350146659414678047281329037513414537903691116075826int, m, 3205110521536678266799839398306420933741719969703028291363763342907647381293int, 15807163544295215104661201963218055977021927872735541273116736131158431344457int);
    assert(mod_pow(3, 1190812350729413085569722240699645872180623548nat, 21888242871839275222246405745257275088696311157297823662689037894645226208583nat) == 15807163544295215104661201963218055977021927872735541273116736131158431344457nat);
    lemma_fundamental_div_mod_converse(15807163544295215104661201963218055977021927872735541273116736131158431344457int * 15807163544295215104661201963218055977021927872735541273116736131158431344457int, m, 11415554038719386757450260760560308769184243488560666422008575994934028173223int, 13860161791674066802115688018804204137986598179713632146824316858070731251840int);
    assert(mod_pow(3, 2381624701458826171139444481399291744361247096nat, 21888242871839275222246405745257275088696311157297823662689037894645226208583nat) == 13860161791674066802115688018804204137986598179713632146824316858070731251840nat);
    lemma_fundamental_div_mod_converse(13860161791674066802115688018804204137986598179713632146824316858070731251840int * 13860161791674066802115688018804204137986598179713632146824316858070731251840int, m, 8776587778936643218739852053777955785761349811657949780269165231491922261011int, 16133138085752572628603278359056795581457962159369529284677683530149048928187int);
    assert(mod_pow(3, 4763249402917652342278888962798583488722494192nat, 21888242871839275222246405745257275088696311157297823662689037894645226208583nat) == 16133138085752572628603278359056795581457962159369529284677683530149048928187nat);
    lemma_fundamental_div_mod_converse(16133138085752572628603278359056795581457962159369529284677683530149048928187int * 16133138085752572628603278359056795581457962159369529284677683530149048928187int, m, 11891230649163979127715071679820451880354860581516560774268605086333107902064int, 3923820787657742202358985548736670580587815035574309447423488161901482891657int);
    lemma_fundamental_div_mod_converse(3923820787657742202358985548736670580587815035574309447423488161901482891657int * 3, m, 0int, 11771462362973226607076956646210011741763445106722928342270464485704448674971int);
    assert(mod_pow(3, 9526498805835304684557777925597166977444988385nat, 21888242871839275222246405745257275088696311157297823662689037894645226208583nat) == 11771462362973226607076956646210011741763445106722928342270464485704448674971nat);
    lemma_fundamental_div_mod_converse(11771462362973226607076956646210011741763445106722928342270464485704448674971int * 11771462362973226607076956646210011741763445106722928342270464485704448674971int, m, 6330673822208523780577083870666184843502761413711984244816499050589831478813int, 9653499050808994375590559185003764077898374592975611672264530788981518598862int);
    lemma_fundamental_div_mod_converse(9653499050808994375590559185003764077898374592975611672264530788981518598862int * 3, m, 1int, 7072254280587707904525271809754017144998812621629011354104554472299329588003int);
    assert(mod_pow(3, 19052997611670609369115555851194333954889976771nat, 21888242871839275222246405745257275088696311157297823662689037894645226208583nat) == 7072254280587707904525271809754017144998812621629011354104554472299329588003nat);
    lemma_fundamental_div_mod_converse(7072254280587707904525271809754017144998812621629011354104554472299329588003int * 7072254280587707904525271809754017144998812621629011354104554472299329588003int, m, 2285098027381685102094972240369751386977304857459281247822106177827257717005int, 4634120702731736783147439719432607385193769555650929665344336160881205474094int);
    assert(mod_pow(3, 38105995223341218738231111702388667909779953542nat, 21888242871839275222246405745257275088696311157297823662689037894645226208583nat) == 4634120702731736783147439719432607385193769555650929665344336160881205474094nat);
    lemma_fundamental_div_mod_converse(4634120702731736783147439719432607385193769555650929665344336160881205474094int * 4634120702731736783147439719432607385193769555650929665344336160881205474094int, m, 981123739042389809326612833494309200423901985059280048969895047023499286238int, 6005160456360729141889747499041194233365730180404379883200319116479895740082int);
    lemma_fundamental_div_mod_converse(6005160456360729141889747499041194233365730180404379883200319116479895740082int * 3, m, 0int, 18015481369082187425669242497123582700097190541213139649600957349439687220246int);
    assert(mod_pow(3, 76211990446682437476462223404777335819559907085nat, 21888242871839275222246405745257275088696311157297823662689037894645226208583nat) == 18015481369082187425669242497123582700097190541213139649600957349439687220246nat);
    lemma_fundamental_div_mod_converse(18015481369082187425669242497123582700097190541213139649600957349439687220246int * 18015481369082187425669242497123582700097190541213139649600957349439687220246int, m, 14827940774419721256021498146323580597780200595702167939962285429138289637403int, 10054874511265407287566629874608402204790298008862645279004942538798995870567int);
    lemma_fundamental_div_mod_converse(10054874511265407287566629874608402204790298008862645279004942538798995870567int * 3, m, 1int, 8276380661956946640453483878567931525674582869290112174325789721751761403118int);
    assert(mod_pow(3, 152423980893364874952924446809554671639119814171nat, 21888242871839275222246405745257275088696311157297823662689037894645226208583nat) == 8276380661956946640453483878567931525674582869290112174325789721751761403118nat);
    lemma_fundamental_div_mod_converse(8276380661956946640453483878567931525674582869290112174325789721751761403118int * 8276380661956946640453483878567931525674582869290112174325789721751761403118int, m, 3129464400714544882427812527868503730385999886322767964896594724960765017775int, 21382609144040366333620410954024969944010303429795831629398055673802247559099int);
    assert(mod_pow(3, 304847961786729749905848893619109343278239628342nat, 21888242871839275222246405745257275088696311157297823662689037894645226208583nat) == 21382609144040366333620410954024969944010303429795831629398055673802247559099nat);
    lemma_fundamental_div_mod_converse(21382609144040366333620410954024969944010303429795831629398055673802247559099int * 21382609144040366333620410954024969944010303429795831629398055673802247559099int, m, 20888655909197644085029587563642367240896292751807931164824684311850784167610int, 4898343102664369075624321997088826438744453325609732941221285891859605095171int);
    lemma_fundamental_div_mod_converse(4898343102664369075624321997088826438744453325609732941221285891859605095171int * 3, m, 0int, 14695029307993107226872965991266479316233359976829198823663857675578815285513int);
    assert(mod_pow(3, 609695923573459499811697787238218686556479256685nat, 21888242871839275222246405745257275088696311157297823662689037894645226208583nat) == 14695029307993107226872965991266479316233359976829198823663857675578815285513nat);
    lemma_fundamental_div_mod_converse(14695029307993107226872965991266479316233359976829198823663857675578815285513int * 14695029307993107226872965991266479316233359976829198823663857675578815285513int, m, 9865747909833502052066900377157685482340050822080061392890914748451718983261int, 5435728394215031256645171038214977421596520776185863585109357961033036144006int);
    assert(mod_pow(3, 1219391847146918999623395574476437373112958513370nat, 21888242871839275222246405745257275088696311157297823662689037894645226208583nat) == 5435728394215031256645171038214977421596520776185863585109357961033036144006nat);
    lemma_fundamental_div_mod_converse(5435728394215031256645171038214977421596520776185863585109357961033036144006int * 5435728394215031256645171038214977421596520776185863585109357961033036144006int, m, 1349909325690549022846783359062421585758145510291895590928087414289979198941int, 11620777865684750085846146165985607788421628446033807706651526626148251017433int);
    assert(mod_pow(3, 2438783694293837999246791148952874746225917026740nat, 21888242871839275222246405745257275088696311157297823662689037894645226208583nat) == 11620777865684750085846146165985607788421628446033807706651526626148251017433nat);
    lemma_fundamental_div_mod_converse(11620777865684750085846146165985607788421628446033807706651526626148251017433int * 11620777865684750085846146165985607788421628446033807706651526626148251017433int, m, 6169635406290653881697349640999751209632200274107647743734815266583288013395int, 6528050941766102760875086415667198054715593214143776325781774683153701940204int);
    assert(mod_pow(3, 4877567388587675998493582297905749492451834053480nat, 21888242871839275222246405745257275088696311157297823662689037894645226208583nat) == 6528050941766102760875086415667198054715593214143776325781774683153701940204nat);
    lemma_fundamental_div_mod_converse(6528050941766102760875086415667198054715593214143776325781774683153701940204int * 6528050941766102760875086415667198054715593214143776325781774683153701940204int, m, 1946956151200286502118413832030838436037276202568295627001405816106234565971int, 8647303604846556744379801050777883930672685732802013436705847062545071632523int);
    assert(mod_pow(3, 9755134777175351996987164595811498984903668106960nat, 21888242871839275222246405745257275088696311157297823662689037894645226208583nat) == 8647303604846556744379801050777883930672685732802013436705847062545071632523nat);
    lemma_fundamental_div_mod_converse(8647303604846556744379801050777883930672685732802013436705847062545071632523int * 8647303604846556744379801050777883930672685732802013436705847062545071632523int, m, 3416256849497797015898047395612003242812894164039701316015903254423658433303int, 13940538377028948188155720754779293649717105336304625116562941814979879705880int);
    lemma_fundamental_div_mod_converse(13940538377028948188155720754779293649717105336304625116562941814979879705880int * 3, m, 1int, 19933372259247569342220756519080605860455004851616051686999787550294412909057int);
    assert(mod_pow(3, 19510269554350703993974329191622997969807336213921nat, 21888242871839275222246405745257275088696311157297823662689037894645226208583nat) == 19933372259247569342220756519080605860455004851616051686999787550294412909057nat);
    lemma_fundamental_div_mod_converse(19933372259247569342220756519080605860455004851616051686999787550294412909057int * 19933372259247569342220756519080605860455004851616051686999787550294412909057int, m, 18153093967033088337492064323074585117704846793602487541432629376690181156451int, 19762140943784521143739187617325616957219474489326827431706982505096270610316int);
    assert(mod_pow(3, 39020539108701407987948658383245995939614672427842nat, 21888242871839275222246405745257275088696311157297823662689037894645226208583nat) == 19762140943784521143739187617325616957219474489326827431706982505096270610316nat);
    lemma_fundamental_div_mod_converse(19762140943784521143739187617325616957219474489326827431706982505096270610316int * 19762140943784521143739187617325616957219474489326827431706982505096270610316int, m, 17842556708124976668148126443407767786828501398947384743372024865216071773190int, 20353447367836311846177874104800866252585347771253842096786224418425518330086int);
    assert(mod_pow(3, 78041078217402815975897316766491991879229344855684nat, 21888242871839275222246405745257275088696311157297823662689037894645226208583nat) == 20353447367836311846177874104800866252585347771253842096786224418425518330086nat);
    lemma_fundamental_div_mod_converse(20353447367836311846177874104800866252585347771253842096786224418425518330086int * 20353447367836311846177874104800866252585347771253842096786224418425518330086int, m, 18926271157574754623837710239470340902892758120051130085076599049690324351468int, 17894409859524135829040579230914914098194552753947214437284999185962082517552int);
    lemma_fundamental_div_mod_converse(17894409859524135829040579230914914098194552753947214437284999185962082517552int * 3, m, 2int, 9906743834893857042628926202230192117191035947245995986476921768595795135490int);
    assert(mod_pow(3, 156082156434805631951794633532983983758458689711369nat, 21888242871839275222246405745257275088696311157297823662689037894645226208583nat) == 9906743834893857042628926202230192117191035947245995986476921768595795135490nat);
    lemma_fundamental_div_mod_converse(9906743834893857042628926202230192117191035947245995986476921768595795135490int * 9906743834893857042628926202230192117191035947245995986476921768595795135490int, m, 4483848885671671683720178738091041629802050237624141429948254923711747433034int, 17370905214260365458898739192961201620217303529430070273006443923336949009278int);
    lemma_fundamental_div_mod_converse(17370905214260365458898739192961201620217303529430070273006443923336949009278int * 3, m, 2int, 8336229899102545932203406088369054683259288273694563493641255980720394610668int);
    assert(mod_pow(3, 312164312869611263903589267065967967516917379422739nat, 21888242871839275222246405745257275088696311157297823662689037894645226208583nat) == 8336229899102545932203406088369054683259288273694563493641255980720394610668nat);
    lemma_fundamental_div_mod_converse(8336229899102545932203406088369054683259288273694563493641255980720394610668int * 8336229899102545932203406088369054683259288273694563493641255980720394610668int, m, 3174888424693898214232663371703047243354233921085106990017955292004606032037int, 14116628281123990186456218214324810350193532622803433005618370457653957032653int);
    lemma_fundamental_div_mod_converse(14116628281123990186456218214324810350193532622803433005618370457653957032653int * 3, m, 1int, 20461641971532695337122248897717155961884286711112475354166073478316644889376int);
    assert(mod_pow(3, 624328625739222527807178534131935935033834758845479nat, 21888242871839275222246405745257275088696311157297823662689037894645226208583nat) == 20461641971532695337122248897717155961884286711112475354166073478316644889376nat);
    lemma_fundamental_div_mod_converse(20461641971532695337122248897717155961884286711112475354166073478316644889376int * 20461641971532695337122248897717155961884286711112475354166073478316644889376int, m, 19128022044649704235468844463344155092461516603873907358536114995130319466940int, 17948138424909561091191720441961092133526386131485783733489363420685464923356int);
    assert(mod_pow(3, 1248657251478445055614357068263871870067669517690958nat, 21888242871839275222246405745257275088696311157297823662689037894645226208583nat) == 17948138424909561091191720441961092133526386131485783733489363420685464923356nat);
    lemma_fundamental_div_mod_converse(17948138424909561091191720441961092133526386131485783733489363420685464923356int * 17948138424909561091191720441961092133526386131485783733489363420685464923356int, m, 14717292512052883167795498918222544286080834255330373743915088178342347625334int, 7076668941429006631468988695692222027156454405865670848924737509796735261014int);
    assert(mod_pow(3, 2497314502956890111228714136527743740135339035381916nat, 21888242871839275222246405745257275088696311157297823662689037894645226208583nat) == 7076668941429006631468988695692222027156454405865670848924737509796735261014nat);
    lemma_fundamental_div_mod_converse(7076668941429006631468988695692222027156454405865670848924737509796735261014int * 7076668941429006631468988695692222027156454405865670848924737509796735261014int, m, 2287951737369303246850546405990210253776556229385089419964925224899282220054int, 10733366599725387059830757335822666612393352257603254113374243235501198784714int);
    lemma_fundamental_div_mod_converse(10733366599725387059830757335822666612393352257603254113374243235501198784714int * 3, m, 1int, 10311856927336885957245866262210724748483745615511938677433691811858370145559int);
    assert(mod_pow(3, 4994629005913780222457428273055487480270678070763833nat, 21888242871839275222246405745257275088696311157297823662689037894645226208583nat) == 10311856927336885957245866262210724748483745615511938677433691811858370145559nat);
    lemma_fundamental_div_mod_converse(10311856927336885957245866262210724748483745615511938677433691811858370145559int * 10311856927336885957245866262210724748483745615511938677433691811858370145559int, m, 4858059822913981301794037904306448369726382632534187147655268115592274981332int, 5118634835919622086676825471418348324464368870836260374610774988565384249925int);
    lemma_fundamental_div_mod_converse(5118634835919622086676825471418348324464368870836260374610774988565384249925int * 3, m, 0int, 15355904507758866260030476414255044973393106612508781123832324965696152749775int);
    assert(mod_pow(3, 9989258011827560444914856546110974960541356141527667nat, 21888242871839275222246405745257275088696311157297823662689037894645226208583nat) == 15355904507758866260030476414255044973393106612508781123832324965696152749775nat);
    lemma_fundamental_div_mod_converse(15355904507758866260030476414255044973393106612508781123832324965696152749775int * 15355904507758866260030476414255044973393106612508781123832324965696152749775int, m, 10773080536071117187742521583376634957617114163300286037371132833598929277903int, 15161669767600515592300432379546529054876251676491948554963487657587111709176int);
    lemma_fundamental_div_mod_converse(15161669767600515592300432379546529054876251676491948554963487657587111709176int * 3, m, 2int, 1708523559122996332408485648125036987236132714880198339512387183470882710362int);
    assert(mod_pow(3, 19978516023655120889829713092221949921082712283055335nat, 21888242871839275222246405745257275088696311157297823662689037894645226208583nat) == 1708523559122996332408485648125036987236132714880198339512387183470882710362nat);
    lemma_fundamental_div_mod_converse(1708523559122996332408485648125036987236132714880198339512387183470882710362int * 1708523559122996332408485648125036987236132714880198339512387183470882710362int, m, 133361675908387885961928780293191972020737262076884959955311713081131019209int, 3237001922024090860645831212060853691902437864531947914198908962165568500197int);
    assert(mod_pow(3, 39957032047310241779659426184443899842165424566110670nat, 21888242871839275222246405745257275088696311157297823662689037894645226208583nat) == 3237001922024090860645831212060853691902437864531947914198908962165568500197nat);
    lemma_fundamental_div_mod_converse(3237001922024090860645831212060853691902437864531947914198908962165568500197int * 3237001922024090860645831212060853691902437864531947914198908962165568500197int, m, 478712773087352619745237972422627487213607393320571944261508676165670234554int, 4066317742483656562938494068545744797096721555462361922067926585150251061827int);
    lemma_fundamental_div_mod_converse(4066317742483656562938494068545744797096721555462361922067926585150251061827int * 3, m, 0int, 12198953227450969688815482205637234391290164666387085766203779755450753185481int);
    assert(mod_pow(3, 79914064094620483559318852368887799684330849132221341nat, 21888242871839275222246405745257275088696311157297823662689037894645226208583nat) == 12198953227450969688815482205637234391290164666387085766203779755450753185481nat);
    lemma_fundamental_div_mod_converse(12198953227450969688815482205637234391290164666387085766203779755450753185481int * 12198953227450969688815482205637234391290164666387085766203779755450753185481int, m, 6798830802311520073862181538034860128768933412643267027636086352590275247548int, 8274092610199999723599371146160165890602349397540238919738705407480981896877int);
    lemma_fundamental_div_mod_converse(8274092610199999723599371146160165890602349397540238919738705407480981896877int * 3, m, 1int, 2934034958760723948551707693223222583110737035322893096527078327797719482048int);
    assert(mod_pow(3, 159828128189240967118637704737775599368661698264442683nat, 21888242871839275222246405745257275088696311157297823662689037894645226208583nat) == 2934034958760723948551707693223222583110737035322893096527078327797719482048nat);
    lemma_fundamental_div_mod_converse(2934034958760723948551707693223222583110737035322893096527078327797719482048int * 2934034958760723948551707693223222583110737035322893096527078327797719482048int, m, 393296126584265339012285158028883347233300817936188451033985240045587379832int, 17724265519924731731865819739513809586887854244533491386872278454694914776248int);
    lemma_fundamental_div_mod_converse(17724265519924731731865819739513809586887854244533491386872278454694914776248int * 3, m, 2int, 9396310816095644751104647728026878583270940419004826835238759574794291911578int);
    assert(mod_pow(3, 319656256378481934237275409475551198737323396528885367nat, 21888242871839275222246405745257275088696311157297823662689037894645226208583nat) == 9396310816095644751104647728026878583270940419004826835238759574794291911578nat);
    lemma_fundamental_div_mod_converse(9396310816095644751104647728026878583270940419004826835238759574794291911578int * 9396310816095644751104647728026878583270940419004826835238759574794291911578int, m, 4033702361109487847523143909832575563748028903491799824829592325507575206644int, 8064009189578966467868498353357768277695289374987952761514216977592499024632int);
    lemma_fundamental_div_mod_converse(8064009189578966467868498353357768277695289374987952761514216977592499024632int * 3, m, 1int, 2303784696897624181359089314816029744389556967666034621853613038132270865313int);
    assert(mod_pow(3, 639312512756963868474550818951102397474646793057770735nat, 21888242871839275222246405745257275088696311157297823662689037894645226208583nat) == 2303784696897624181359089314816029744389556967666034621853613038132270865313nat);
    lemma_fundamental_div_mod_converse(2303784696897624181359089314816029744389556967666034621853613038132270865313int * 2303784696897624181359089314816029744389556967666034621853613038132270865313int, m, 242478300370471619796637250208084107924237265015667232672535598285309399181int, 6353175695802531549866258829425491161360934109645050274121779243999471217446int);
    lemma_fundamental_div_mod_converse(6353175695802531549866258829425491161360934109645050274121779243999471217446int * 3, m, 0int, 19059527087407594649598776488276473484082802328935150822365337731998413652338int);
    assert(mod_pow(3, 1278625025513927736949101637902204794949293586115541471nat, 21888242871839275222246405745257275088696311157297823662689037894645226208583nat) == 19059527087407594649598776488276473484082802328935150822365337731998413652338nat);
    lemma_fundamental_div_mod_converse(19059527087407594649598776488276473484082802328935150822365337731998413652338int * 19059527087407594649598776488276473484082802328935150822365337731998413652338int, m, 16596378929209977262772678444146148400495806213766613115014158009698216005320int, 19027352923168360374005151223611156592573227682857863691558498119313375204684int);
    lemma_fundamental_div_mod_converse(19027352923168360374005151223611156592573227682857863691558498119313375204684int * 3, m, 2int, 13305573025826530677522642180318919600327060733977943749297418568649673196886int);
    assert(mod_pow(3, 2557250051027855473898203275804409589898587172231082943nat, 21888242871839275222246405745257275088696311157297823662689037894645226208583nat) == 13305573025826530677522642180318919600327060733977943749297418568649673196886nat);
    lemma_fundamental_div_mod_converse(13305573025826530677522642180318919600327060733977943749297418568649673196886int * 13305573025826530677522642180318919600327060733977943749297418568649673196886int, m, 8088281667112459408632915916353241145336770544055967568568419668918388843098int, 3489088295332945193699887680468564046472713848536104220149103955025112186862int);
    assert(mod_pow(3, 5114500102055710947796406551608819179797174344462165886nat, 21888242871839275222246405745257275088696311157297823662689037894645226208583nat) == 3489088295332945193699887680468564046472713848536104220149103955025112186862nat);
    lemma_fundamental_div_mod_converse(3489088295332945193699887680468564046472713848536104220149103955025112186862int * 3489088295332945193699887680468564046472713848536104220149103955025112186862int, m, 556176994375903268502125623438135357879555957869816760932623652934768656102int, 16841097580578569587873306641147384106584012297045518640616330166072357683578int);
    assert(mod_pow(3, 10229000204111421895592813103217638359594348688924331772nat, 21888242871839275222246405745257275088696311157297823662689037894645226208583nat) == 16841097580578569587873306641147384106584012297045518640616330166072357683578nat);
    lemma_fundamental_div_mod_converse(16841097580578569587873306641147384106584012297045518640616330166072357683578int * 16841097580578569587873306641147384106584012297045518640616330166072357683578int, m, 12957758618599267480153137537658649490314844844545743037898507401201062447995int, 9749135209129947599727203096674425381654588152450782256558755947543510740999int);
    lemma_fundamental_div_mod_converse(9749135209129947599727203096674425381654588152450782256558755947543510740999int * 3, m, 1int, 7359162755550567576935203544766001056267453300054523106987229947985306014414int);
    assert(mod_pow(3, 20458000408222843791185626206435276719188697377848663545nat, 21888242871839275222246405745257275088696311157297823662689037894645226208583nat) == 7359162755550567576935203544766001056267453300054523106987229947985306014414nat);
    lemma_fundamental_div_mod_converse(7359162755550567576935203544766001056267453300054523106987229947985306014414int * 7359162755550567576935203544766001056267453300054523106987229947985306014414int, m, 2474263319343905453535614360266816591871236066776100667414134951038004078187int, 8542809554313792445054265466473119776945028948769864563917324266111673284375int);
    lemma_fundamental_div_mod_converse(8542809554313792445054265466473119776945028948769864563917324266111673284375int * 3, m, 1int, 3740185791102102112916390654162084242138775689011770029062934903689793644542int);
    assert(mod_pow(3, 40916000816445687582371252412870553438377394755697327091nat, 21888242871839275222246405745257275088696311157297823662689037894645226208583nat) == 3740185791102102112916390654162084242138775689011770029062934903689793644542nat);
    lemma_fundamental_div_mod_converse(3740185791102102112916390654162084242138775689011770029062934903689793644542int * 3740185791102102112916390654162084242138775689011770029062934903689793644542int, m, 639109764720303410558170788956874890175065222669762465434309173924957708651int, 12879892138775251846618132164950521588891014990909292820983962597031176838231int);
    assert(mod_pow(3, 81832001632891375164742504825741106876754789511394654182nat, 21888242871839275222246405745257275088696311157297823662689037894645226208583nat) == 12879892138775251846618132164950521588891014990909292820983962597031176838231nat);
    lemma_fundamental_div_mod_converse(12879892138775251846618132164950521588891014990909292820983962597031176838231int * 12879892138775251846618132164950521588891014990909292820983962597031176838231int, m, 7579028726874895628706080000627295576548233224784375178883509642243998326913int, 8006277560690517765098950012167873344545900869617511057744473173411582715082int);
    assert(mod_pow(3, 163664003265782750329485009651482213753509579022789308364nat, 21888242871839275222246405745257275088696311157297823662689037894645226208583nat) == 8006277560690517765098950012167873344545900869617511057744473173411582715082nat);
    lemma_fundamental_div_mod_converse(8006277560690517765098950012167873344545900869617511057744473173411582715082int * 8006277560690517765098950012167873344545900869617511057744473173411582715082int, m, 2928534773400480178848658235793320910084678715496587571648071308767088171612int, 5351851727035799630073857942454683871772125197951463451449227416194378920928int);
    lemma_fundamental_div_mod_converse(5351851727035799630073857942454683871772125197951463451449227416194378920928int * 3, m, 0int, 16055555181107398890221573827364051615316375593854390354347682248583136762784int);
    assert(mod_pow(3, 327328006531565500658970019302964427507019158045578616729nat, 21888242871839275222246405745257275088696311157297823662689037894645226208583nat) == 16055555181107398890221573827364051615316375593854390354347682248583136762784nat);
    lemma_fundamental_div_mod_converse(16055555181107398890221573827364051615316375593854390354347682248583136762784int * 16055555181107398890221573827364051615316375593854390354347682248583136762784int, m, 11777137785017790359556060393577027555857449672950543816414942622085866649321int, 464462020300425473902815426906951660782971846935572293485493789088226108513int);
    lemma_fundamental_div_mod_converse(464462020300425473902815426906951660782971846935572293485493789088226108513int * 3, m, 0int, 1393386060901276421708446280720854982348915540806716880456481367264678325539int);
    assert(mod_pow(3, 654656013063131001317940038605928855014038316091157233459nat, 21888242871839275222246405745257275088696311157297823662689037894645226208583nat) == 1393386060901276421708446280720854982348915540806716880456481367264678325539nat);
    lemma_fundamental_div_mod_converse(1393386060901276421708446280720854982348915540806716880456481367264678325539int * 1393386060901276421708446280720854982348915540806716880456481367264678325539int, m, 88701716537140595783478397543674097643769787460449294275411968894865203548int, 21107989389684059377984348054786994987485270550928642491673827901998259988037int);
    assert(mod_pow(3, 1309312026126262002635880077211857710028076632182314466918nat, 21888242871839275222246405745257275088696311157297823662689037894645226208583nat) == 21107989389684059377984348054786994987485270550928642491673827901998259988037nat);
    lemma_fundamental_div_mod_converse(21107989389684059377984348054786994987485270550928642491673827901998259988037int * 21107989389684059377984348054786994987485270550928642491673827901998259988037int, m, 20355549720632982508064708067065813509018765071500751896628554871963257681919int, 770686074344792132050380584027324652537324225857140915021246017585621402592int);
    lemma_fundamental_div_mod_converse(770686074344792132050380584027324652537324225857140915021246017585621402592int * 3, m, 0int, 2312058223034376396151141752081973957611972677571422745063738052756864207776int);
    assert(mod_pow(3, 2618624052252524005271760154423715420056153264364628933837nat, 21888242871839275222246405745257275088696311157297823662689037894645226208583nat) == 2312058223034376396151141752081973957611972677571422745063738052756864207776nat);
    lemma_fundamental_div_mod_converse(2312058223034376396151141752081973957611972677571422745063738052756864207776int * 2312058223034376396151141752081973957611972677571422745063738052756864207776int, m, 244223040561121332285003926894290421483932898170749150648237851092580423821int, 9154036261626697807973558628484538481952830370131863149468149758361011010533int);
    lemma_fundamental_div_mod_converse(9154036261626697807973558628484538481952830370131863149468149758361011010533int * 3, m, 1int, 5573865913040818201674270140196340357162179953097765785715411380437806823016int);
    assert(mod_pow(3, 5237248104505048010543520308847430840112306528729257867675nat, 21888242871839275222246405745257275088696311157297823662689037894645226208583nat) == 5573865913040818201674270140196340357162179953097765785715411380437806823016nat);
    lemma_fundamental_div_mod_converse(5573865913040818201674270140196340357162179953097765785715411380437806823016int * 5573865913040818201674270140196340357162179953097765785715411380437806823016int, m, 1419391286841459590873320587251083358175223651829415969967847544423237532131int, 4169060906633619180964799939500873723941292038857201141385667986452376855883int);
    lemma_fundamental_div_mod_converse(4169060906633619180964799939500873723941292038857201141385667986452376855883int * 3, m, 0int, 12507182719900857542894399818502621171823876116571603424157003959357130567649int);
    assert(mod_pow(3, 10474496209010096021087040617694861680224613057458515735351nat, 21888242871839275222246405745257275088696311157297823662689037894645226208583nat) == 12507182719900857542894399818502621171823876116571603424157003959357130567649nat);
    lemma_fundamental_div_mod_converse(12507182719900857542894399818502621171823876116571603424157003959357130567649int * 12507182719900857542894399818502621171823876116571603424157003959357130567649int, m, 7146741769310502341445582488799982907921615940088496062023956328169903114158int, 9397225779324955757455557203471968378770126434133693979056278480685996969087int);
    assert(mod_pow(3, 20948992418020192042174081235389723360449226114917031470702nat, 21888242871839275222246405745257275088696311157297823662689037894645226208583nat) == 9397225779324955757455557203471968378770126434133693979056278480685996969087nat);
    lemma_fundamental_div_mod_converse(9397225779324955757455557203471968378770126434133693979056278480685996969087int * 9397225779324955757455557203471968378770126434133693979056278480685996969087int, m, 4034487960713540288970003480994954934381940598653245327050422124637706257868int, 6151892947984880989218417973102432137949142535445764748564205878727880732525int);
    assert(mod_pow(3, 41897984836040384084348162470779446720898452229834062941404nat, 21888242871839275222246405745257275088696311157297823662689037894645226208583nat) == 6151892947984880989218417973102432137949142535445764748564205878727880732525nat);
    lemma_fundamental_div_mod_converse(6151892947984880989218417973102432137949142535445764748564205878727880732525int * 6151892947984880989218417973102432137949142535445764748564205878727880732525int, m, 1729046368183227194301950918180984832733016216440761821121880138868157408922int, 8529419242387081697892432046481215678967219620890710862329496547147395698099int);
    assert(mod_pow(3, 83795969672080768168696324941558893441796904459668125882808nat, 21888242871839275222246405745257275088696311157297823662689037894645226208583nat) == 8529419242387081697892432046481215678967219620890710862329496547147395698099nat);
    lemma_fundamental_div_mod_converse(8529419242387081697892432046481215678967219620890710862329496547147395698099int * 8529419242387081697892432046481215678967219620890710862329496547147395698099int, m, 3323747504008289190711247405665054488278475937543273517101295059321628425049int, 3263266504289153589342965445516961086104309633974207260691232654203696218234int);
    assert(mod_pow(3, 167591939344161536337392649883117786883593808919336251765616nat, 21888242871839275222246405745257275088696311157297823662689037894645226208583nat) == 3263266504289153589342965445516961086104309633974207260691232654203696218234nat);
    lemma_fundamental_div_mod_converse(3263266504289153589342965445516961086104309633974207260691232654203696218234int * 3263266504289153589342965445516961086104309633974207260691232654203696218234int, m, 486512706404409596863838161621715119254615902424201734410287319377744203140int, 8790967077577532928819753688238424569357984786445659484716069251604590528136int);
    lemma_fundamental_div_mod_converse(8790967077577532928819753688238424569357984786445659484716069251604590528136int * 3, m, 1int, 4484658360893323564212855319457998619377643202039154791459169860168545375825int);
    assert(mod_pow(3, 335183878688323072674785299766235573767187617838672503531233nat, 21888242871839275222246405745257275088696311157297823662689037894645226208583nat) == 4484658360893323564212855319457998619377643202039154791459169860168545375825nat);
    lemma_fundamental_div_mod_converse(4484658360893323564212855319457998619377643202039154791459169860168545375825int * 4484658360893323564212855319457998619377643202039154791459169860168545375825int, m, 918856791369309264819208316452423320886518969547720340991786331532720068843int, 11372862938956474607768657944771242963391281555166364388417846841346856951156int);
    assert(mod_pow(3, 670367757376646145349570599532471147534375235677345007062466nat, 21888242871839275222246405745257275088696311157297823662689037894645226208583nat) == 11372862938956474607768657944771242963391281555166364388417846841346856951156nat);
    lemma_fundamental_div_mod_converse(11372862938956474607768657944771242963391281555166364388417846841346856951156int * 11372862938956474607768657944771242963391281555166364388417846841346856951156int, m, 5909200303816852493581367483669227801557821383000570442275517756060322701522int, 6040584115832593412724603849415099699946944974699823207954178546711746173010int);
    assert(mod_pow(3, 1340735514753292290699141199064942295068750471354690014124932nat, 21888242871839275222246405745257275088696311157297823662689037894645226208583nat) == 6040584115832593412724603849415099699946944974699823207954178546711746173010nat);
    lemma_fundamental_div_mod_converse(6040584115832593412724603849415099699946944974699823207954178546711746173010int * 6040584115832593412724603849415099699946944974699823207954178546711746173010int, m, 1667043657825735840702825776676736877925485630874188872809008519325726502997int, 10142424807446474455584128580967666107649121092329666943152338255627355836849int);
    lemma_fundamental_div_mod_converse(10142424807446474455584128580967666107649121092329666943152338255627355836849int * 3, m, 1int, 8539031550500148144505979997645723234251052119691177166767976872236841301964int);
    assert(mod_pow(3, 2681471029506584581398282398129884590137500942709380028249865nat, 21888242871839275222246405745257275088696311157297823662689037894645226208583nat) == 8539031550500148144505979997645723234251052119691177166767976872236841301964nat);
    lemma_fundamental_div_mod_converse(8539031550500148144505979997645723234251052119691177166767976872236841301964int * 8539031550500148144505979997645723234251052119691177166767976872236841301964int, m, 3331243181436331121474716222047902313762018173689595656844706900005870024811int, 3331343861539545792595020871045236327673257469367283271348150944912959104483int);
    lemma_fundamental_div_mod_converse(3331343861539545792595020871045236327673257469367283271348150944912959104483int * 3, m, 0int, 9994031584618637377785062613135708983019772408101849814044452834738877313449int);
    assert(mod_pow(3, 5362942059013169162796564796259769180275001885418760056499731nat, 21888242871839275222246405745257275088696311157297823662689037894645226208583nat) == 9994031584618637377785062613135708983019772408101849814044452834738877313449nat);
    lemma_fundamental_div_mod_converse(9994031584618637377785062613135708983019772408101849814044452834738877313449int * 9994031584618637377785062613135708983019772408101849814044452834738877313449int, m, 4563210847904937898525742161843676112091823921900812324506155404602449300279int, 12695608886283758203867374840270795791593308453157950278719930421111342180944int);
    lemma_fundamental_div_mod_converse(12695608886283758203867374840270795791593308453157950278719930421111342180944int * 3, m, 1int, 16198583787011999389355718775555112286083614202176027173470753368688800334249int);
    assert(mod_pow(3, 10725884118026338325593129592519538360550003770837520112999463nat, 21888242871839275222246405745257275088696311157297823662689037894645226208583nat) == 16198583787011999389355718775555112286083614202176027173470753368688800334249nat);
    lemma_fundamental_div_mod_converse(16198583787011999389355718775555112286083614202176027173470753368688800334249int * 16198583787011999389355718775555112286083614202176027173470753368688800334249int, m, 11987902283487361357116265658545465684802365237046368337575904208084616100140int, 8458282451694267619492807614195955197675990630854185803540253823122466892381int);
    lemma_fundamental_div_mod_converse(8458282451694267619492807614195955197675990630854185803540253823122466892381int * 3, m, 1int, 3486604483243527636232017097330590504331660735264733747931723574722174468560int);
    assert(mod_pow(3, 21451768236052676651186259185039076721100007541675040225998927nat, 21888242871839275222246405745257275088696311157297823662689037894645226208583nat) == 3486604483243527636232017097330590504331660735264733747931723574722174468560nat);
    lemma_fundamental_div_mod_converse(3486604483243527636232017097330590504331660735264733747931723574722174468560int * 3486604483243527636232017097330590504331660735264733747931723574722174468560int, m, 555385413701431564720347113422393093566020646338809909746181328920845723370int, 13628247133347660066661446261040543611440548895602209366290514136023290788890int);
    lemma_fundamental_div_mod_converse(13628247133347660066661446261040543611440548895602209366290514136023290788890int * 3, m, 1int, 18996498528203704977737933037864355745625335529508804436182504513424646158087int);
    assert(mod_pow(3, 42903536472105353302372518370078153442200015083350080451997855nat, 21888242871839275222246405745257275088696311157297823662689037894645226208583nat) == 18996498528203704977737933037864355745625335529508804436182504513424646158087nat);
    lemma_fundamental_div_mod_converse(18996498528203704977737933037864355745625335529508804436182504513424646158087int * 18996498528203704977737933037864355745625335529508804436182504513424646158087int, m, 16486794232182319405979957279022456921232547918919637326434024086037573918080int, 15205414230351245178370597708435531772078153169102166733404922477682760618929int);
    assert(mod_pow(3, 85807072944210706604745036740156306884400030166700160903995710nat, 21888242871839275222246405745257275088696311157297823662689037894645226208583nat) == 15205414230351245178370597708435531772078153169102166733404922477682760618929nat);
    lemma_fundamental_div_mod_converse(15205414230351245178370597708435531772078153169102166733404922477682760618929int * 15205414230351245178370597708435531772078153169102166733404922477682760618929int, m, 10562959451351334542939934239547111048396815492993817521465140170486058145735int, 1743714796107195414381137927135503472084331625265095335570581302833831263536int);
    assert(mod_pow(3, 171614145888421413209490073480312613768800060333400321807991420nat, 21888242871839275222246405745257275088696311157297823662689037894645226208583nat) == 1743714796107195414381137927135503472084331625265095335570581302833831263536nat);
    lemma_fundamental_div_mod_converse(1743714796107195414381137927135503472084331625265095335570581302833831263536int * 1743714796107195414381137927135503472084331625265095335570581302833831263536int, m, 138912077500520741162330377837749959249370822813225451669088121899221653073int, 19478106542080379778220086185553535471383543752257850376053115101012722297737int);
    lemma_fundamental_div_mod_converse(19478106542080379778220086185553535471383543752257850376053115101012722297737int * 3, m, 2int, 14657833882562588890167447066146056236758008942177903802781269513747714476045int);
    assert(mod_pow(3, 343228291776842826418980146960625227537600120666800643615982841nat, 21888242871839275222246405745257275088696311157297823662689037894645226208583nat) == 14657833882562588890167447066146056236758008942177903802781269513747714476045nat);
    lemma_fundamental_div_mod_converse(14657833882562588890167447066146056236758008942177903802781269513747714476045int * 14657833882562588890167447066146056236758008942177903802781269513747714476045int, m, 9815867604668340234204702740737668160979265667252700115234989452650680435051int, 7738094089330700858127702298171767877648767434438082832193810640155168599292int);
    lemma_fundamental_div_mod_converse(7738094089330700858127702298171767877648767434438082832193810640155168599292int * 3, m, 1int, 1326039396152827352136701149258028544249991146016424833892394025820279589293int);
    assert(mod_pow(3, 686456583553685652837960293921250455075200241333601287231965683nat, 21888242871839275222246405745257275088696311157297823662689037894645226208583nat) == 1326039396152827352136701149258028544249991146016424833892394025820279589293nat);
    lemma_fundamental_div_mod_converse(1326039396152827352136701149258028544249991146016424833892394025820279589293int * 1326039396152827352136701149258028544249991146016424833892394025820279589293int, m, 80334474103064344687283497916256197840468400927324819190551162410521453085int, 3517827697909476179099321578798572881952929520449172154180526108674301411294int);
    assert(mod_pow(3, 1372913167107371305675920587842500910150400482667202574463931366nat, 21888242871839275222246405745257275088696311157297823662689037894645226208583nat) == 3517827697909476179099321578798572881952929520449172154180526108674301411294nat);
    lemma_fundamental_div_mod_converse(3517827697909476179099321578798572881952929520449172154180526108674301411294int * 3517827697909476179099321578798572881952929520449172154180526108674301411294int, m, 565377119791580632592099276887660313378723183020013228277738891044429215233int, 10997411018544411315950115285904839628679412564638740095445485926973491809597int);
    assert(mod_pow(3, 2745826334214742611351841175685001820300800965334405148927862732nat, 21888242871839275222246405745257275088696311157297823662689037894645226208583nat) == 10997411018544411315950115285904839628679412564638740095445485926973491809597nat);
    lemma_fundamental_div_mod_converse(10997411018544411315950115285904839628679412564638740095445485926973491809597int * 10997411018544411315950115285904839628679412564638740095445485926973491809597int, m, 5525480040538272216431442949830003293493158478559343915474049904594935339033int, 8600961686665847903017260304322667011646017467544647895759451306137421782170int);
    lemma_fundamental_div_mod_converse(8600961686665847903017260304322667011646017467544647895759451306137421782170int * 3, m, 1int, 3914642188158268486805375167710725946241741245336120024589316023767039137927int);
    assert(mod_pow(3, 5491652668429485222703682351370003640601601930668810297855725465nat, 21888242871839275222246405745257275088696311157297823662689037894645226208583nat) == 3914642188158268486805375167710725946241741245336120024589316023767039137927nat);
    lemma_fundamental_div_mod_converse(3914642188158268486805375167710725946241741245336120024589316023767039137927int * 3914642188158268486805375167710725946241741245336120024589316023767039137927int, m, 700121227228544577510589693214065470757920271997939553271084332984497388339int, 18562750132229782555670165287523930893303105107814146276881790893956963943692int);
    assert(mod_pow(3, 10983305336858970445407364702740007281203203861337620595711450930nat, 21888242871839275222246405745257275088696311157297823662689037894645226208583nat) == 18562750132229782555670165287523930893303105107814146276881790893956963943692nat);
    lemma_fundamental_div_mod_converse(18562750132229782555670165287523930893303105107814146276881790893956963943692int * 18562750132229782555670165287523930893303105107814146276881790893956963943692int, m, 15742501327729557357884616571989172154807004421665355606295900279517093813920int, 10638355729450871915269391877132397390055982015234997500391723264220437715504int);
    lemma_fundamental_div_mod_converse(10638355729450871915269391877132397390055982015234997500391723264220437715504int * 3, m, 1int, 10026824316513340523561769886139917081471634888407168838486131898016086937929int);
    assert(mod_pow(3, 21966610673717940890814729405480014562406407722675241191422901861nat, 21888242871839275222246405745257275088696311157297823662689037894645226208583nat) == 10026824316513340523561769886139917081471634888407168838486131898016086937929nat);
    lemma_fundamental_div_mod_converse(10026824316513340523561769886139917081471634888407168838486131898016086937929int * 10026824316513340523561769886139917081471634888407168838486131898016086937929int, m, 4593205880567563739644020376152969887542618165325758009176160170314426508056int, 12117565141291329244813889430778031326721434837257134298131471210966512964393int);
    lemma_fundamental_div_mod_converse(12117565141291329244813889430778031326721434837257134298131471210966512964393int * 3, m, 1int, 14464452552034712512195262547076818891467993354473579231705375738254312684596int);
    assert(mod_pow(3, 43933221347435881781629458810960029124812815445350482382845803723nat, 21888242871839275222246405745257275088696311157297823662689037894645226208583nat) == 14464452552034712512195262547076818891467993354473579231705375738254312684596nat);
    lemma_fundamental_div_mod_converse(14464452552034712512195262547076818891467993354473579231705375738254312684596int * 14464452552034712512195262547076818891467993354473579231705375738254312684596int, m, 9558573927340685592943220069702084285038106037425163590219486295238302578798int, 9581484217551638233544100318066192597399121778473532187722494432039434259982int);
    assert(mod_pow(3, 87866442694871763563258917621920058249625630890700964765691607446nat, 21888242871839275222246405745257275088696311157297823662689037894645226208583nat) == 9581484217551638233544100318066192597399121778473532187722494432039434259982nat);
    lemma_fundamental_div_mod_converse(9581484217551638233544100318066192597399121778473532187722494432039434259982int * 9581484217551638233544100318066192597399121778473532187722494432039434259982int, m, 4194253524539621601987096187015057269463745103878660261902810758533468548418int, 16108422331509261808974627672770908434128672576777625010957924808305263968630int);
    assert(mod_pow(3, 175732885389743527126517835243840116499251261781401929531383214892nat, 21888242871839275222246405745257275088696311157297823662689037894645226208583nat) == 16108422331509261808974627672770908434128672576777625010957924808305263968630nat);
    lemma_fundamental_div_mod_converse(16108422331509261808974627672770908434128672576777625010957924808305263968630int * 16108422331509261808974627672770908434128672576777625010957924808305263968630int, m, 11854824141416427816066547893696896286026618772425715232937387048908384699297int, 13793363044055628414861023951651521823954531362434908214215227659525768610749int);
    lemma_fundamental_div_mod_converse(13793363044055628414861023951651521823954531362434908214215227659525768610749int * 3, m, 1int, 19491846260327610022336666109697290383167282930006900979956645083932079623664int);
    assert(mod_pow(3, 351465770779487054253035670487680232998502523562803859062766429785nat, 21888242871839275222246405745257275088696311157297823662689037894645226208583nat) == 19491846260327610022336666109697290383167282930006900979956645083932079623664nat);
    lemma_fundamental_div_mod_converse(19491846260327610022336666109697290383167282930006900979956645083932079623664int * 19491846260327610022336666109697290383167282930006900979956645083932079623664int, m, 17357815008762356487841587594344397447018684752139433956464681331414632885989int, 21023116405530505581436260417007736201186300233521427587117776954114096541309int);
    lemma_fundamental_div_mod_converse(21023116405530505581436260417007736201186300233521427587117776954114096541309int * 3, m, 2int, 19292863472912966299815969760508658426166278385968635435975255073051837206761int);
    assert(mod_pow(3, 702931541558974108506071340975360465997005047125607718125532859571nat, 21888242871839275222246405745257275088696311157297823662689037894645226208583nat) == 19292863472912966299815969760508658426166278385968635435975255073051837206761nat);
    lemma_fundamental_div_mod_converse(19292863472912966299815969760508658426166278385968635435975255073051837206761int * 19292863472912966299815969760508658426166278385968635435975255073051837206761int, m, 17005228933353025560286222221262628315002227606152855176652026943192551566715int, 7277269679606253958634869093243304622139457985572652396520125783546633996276int);
    lemma_fundamental_div_mod_converse(7277269679606253958634869093243304622139457985572652396520125783546633996276int * 3, m, 0int, 21831809038818761875904607279729913866418373956717957189560377350639901988828int);
    assert(mod_pow(3, 1405863083117948217012142681950720931994010094251215436251065719143nat, 21888242871839275222246405745257275088696311157297823662689037894645226208583nat) == 21831809038818761875904607279729913866418373956717957189560377350639901988828nat);
    lemma_fundamental_div_mod_converse(21831809038818761875904607279729913866418373956717957189560377350639901988828int * 21831809038818761875904607279729913866418373956717957189560377350639901988828int, m, 21775520707542177212713950565038944035711725302406047426711546540519082946233int, 10445532300526047344151822104466745986101700535025751654623619446018004695745int);
    assert(mod_pow(3, 2811726166235896434024285363901441863988020188502430872502131438286nat, 21888242871839275222246405745257275088696311157297823662689037894645226208583nat) == 10445532300526047344151822104466745986101700535025751654623619446018004695745nat);
    lemma_fundamental_div_mod_converse(10445532300526047344151822104466745986101700535025751654623619446018004695745int * 10445532300526047344151822104466745986101700535025751654623619446018004695745int, m, 4984828872751104795138874713345931899232579066067358570887359860087015321485int, 15948221636029556658515735965981096470150492150721980817671486668472609799270int);
    lemma_fundamental_div_mod_converse(15948221636029556658515735965981096470150492150721980817671486668472609799270int * 3, m, 2int, 4068179164410119531054396407428739233058854137570295127636384216127376980644int);
    assert(mod_pow(3, 5623452332471792868048570727802883727976040377004861745004262876573nat, 21888242871839275222246405745257275088696311157297823662689037894645226208583nat) == 4068179164410119531054396407428739233058854137570295127636384216127376980644nat);
    lemma_fundamental_div_mod_converse(4068179164410119531054396407428739233058854137570295127636384216127376980644int * 4068179164410119531054396407428739233058854137570295127636384216127376980644int, m, 756117419321650204426431600308063120050298032636430190391865203601932877459int, 8300159095283798673474735043550190160500893740455400081993188366655837624139int);
    lemma_fundamental_div_mod_converse(8300159095283798673474735043550190160500893740455400081993188366655837624139int * 3, m, 1int, 3012234414012120798177799385393295392806370064068376583290527205322286663834int);
    assert(mod_pow(3, 11246904664943585736097141455605767455952080754009723490008525753147nat, 21888242871839275222246405745257275088696311157297823662689037894645226208583nat) == 3012234414012120798177799385393295392806370064068376583290527205322286663834nat);
    lemma_fundamental_div_mod_converse(3012234414012120798177799385393295392806370064068376583290527205322286663834int * 3012234414012120798177799385393295392806370064068376583290527205322286663834int, m, 414540181141387859746180121825920865435369273933567577189695872029614087769int, 15765723453014606215727264802439220355464140015198862421205128191413660458229int);
    assert(mod_pow(3, 22493809329887171472194282911211534911904161508019446980017051506294nat, 21888242871839275222246405745257275088696311157297823662689037894645226208583nat) == 15765723453014606215727264802439220355464140015198862421205128191413660458229nat);
    lemma_fundamental_div_mod_converse(15765723453014606215727264802439220355464140015198862421205128191413660458229int * 15765723453014606215727264802439220355464140015198862421205128191413660458229int, m, 11355778417312873888648420860077766547666754748898299573434291580324399553007int, 10483737148377743470980575041183611350261834335317847654890270129499706957360int);
    assert(mod_pow(3, 44987618659774342944388565822423069823808323016038893960034103012588nat, 21888242871839275222246405745257275088696311157297823662689037894645226208583nat) == 10483737148377743470980575041183611350261834335317847654890270129499706957360nat);
    lemma_fundamental_div_mod_converse(10483737148377743470980575041183611350261834335317847654890270129499706957360int * 10483737148377743470980575041183611350261834335317847654890270129499706957360int, m, 5021359879813862720241549093536015288436589044073618912708797126187975163508int, 2074390626676652045473901611233199596719568850217077747225035445952520180436int);
    lemma_fundamental_div_mod_converse(2074390626676652045473901611233199596719568850217077747225035445952520180436int * 3, m, 0int, 6223171880029956136421704833699598790158706550651233241675106337857560541308int);
    assert(mod_pow(3, 89975237319548685888777131644846139647616646032077787920068206025177nat, 21888242871839275222246405745257275088696311157297823662689037894645226208583nat) == 6223171880029956136421704833699598790158706550651233241675106337857560541308nat);
    lemma_fundamental_div_mod_converse(6223171880029956136421704833699598790158706550651233241675106337857560541308int * 6223171880029956136421704833699598790158706550651233241675106337857560541308int, m, 1769345692806691023310047211503294975768446453906187007167751322263924470394int, 4275186474733382032965534441729212313646306623267596974288127253873122159162int);
    lemma_fundamental_div_mod_converse(4275186474733382032965534441729212313646306623267596974288127253873122159162int * 3, m, 0int, 12825559424200146098896603325187636940938919869802790922864381761619366477486int);
    assert(mod_pow(3, 179950474639097371777554263289692279295233292064155575840136412050355nat, 21888242871839275222246405745257275088696311157297823662689037894645226208583nat) == 12825559424200146098896603325187636940938919869802790922864381761619366477486nat);
    lemma_fundamental_div_mod_converse(12825559424200146098896603325187636940938919869802790922864381761619366477486int * 12825559424200146098896603325187636940938919869802790922864381761619366477486int, m, 7515220637254680829388248373538619635168891483389002311162936232878556294681int, 3732221526254783847752744054656212522016372940289366631578631011665225433173int);
    lemma_fundamental_div_mod_converse(3732221526254783847752744054656212522016372940289366631578631011665225433173int * 3, m, 0int, 11196664578764351543258232163968637566049118820868099894735893034995676299519int);
    assert(mod_pow(3, 359900949278194743555108526579384558590466584128311151680272824100711nat, 21888242871839275222246405745257275088696311157297823662689037894645226208583nat) == 11196664578764351543258232163968637566049118820868099894735893034995676299519nat);
    lemma_fundamental_div_mod_converse(11196664578764351543258232163968637566049118820868099894735893034995676299519int * 11196664578764351543258232163968637566049118820868099894735893034995676299519int, m, 5727517664318653115287846465228134357677376737357129893929697123648956992701int, 6122567512172654667484923467227355077489595913098530382423116378957565078678int);
    lemma_fundamental_div_mod_converse(6122567512172654667484923467227355077489595913098530382423116378957565078678int * 3, m, 0int, 18367702536517964002454770401682065232468787739295591147269349136872695236034int);
    assert(mod_pow(3, 719801898556389487110217053158769117180933168256622303360545648201423nat, 21888242871839275222246405745257275088696311157297823662689037894645226208583nat) == 18367702536517964002454770401682065232468787739295591147269349136872695236034nat);
    lemma_fundamental_div_mod_converse(18367702536517964002454770401682065232468787739295591147269349136872695236034int * 18367702536517964002454770401682065232468787739295591147269349136872695236034int, m, 15413411594772702862585140417180384176109103754316543099524229716927727666307int, 16584256811799656131111620860922050792751086605025145363217813629618768736175int);
    lemma_fundamental_div_mod_converse(16584256811799656131111620860922050792751086605025145363217813629618768736175int * 3, m, 2int, 5976284691720417948842051092251602200860637500479788764275365099565853791359int);
    assert(mod_pow(3, 1439603797112778974220434106317538234361866336513244606721091296402847nat, 21888242871839275222246405745257275088696311157297823662689037894645226208583nat) == 5976284691720417948842051092251602200860637500479788764275365099565853791359nat);
    lemma_fundamental_div_mod_converse(5976284691720417948842051092251602200860637500479788764275365099565853791359int * 5976284691720417948842051092251602200860637500479788764275365099565853791359int, m, 1631742617514668834338163568452280257501567173290995016212338810513208340631int, 11160166173531235716047690742249757290887942241219619522302923094841783231008int);
    assert(mod_pow(3, 2879207594225557948440868212635076468723732673026489213442182592805694nat, 21888242871839275222246405745257275088696311157297823662689037894645226208583nat) == 11160166173531235716047690742249757290887942241219619522302923094841783231008nat);
    lemma_fundamental_div_mod_converse(11160166173531235716047690742249757290887942241219619522302923094841783231008int * 11160166173531235716047690742249757290887942241219619522302923094841783231008int, m, 5690237893927613847723324472513982856716349863698816424034486393593394570505int, 17807929079660528747044139697670445324834648686443406029352449000589063051649int);
    lemma_fundamental_div_mod_converse(17807929079660528747044139697670445324834648686443406029352449000589063051649int * 3, m, 2int, 9647301495303035796639607602496785797111323744734570762679271212476736737781int);
    assert(mod_pow(3, 5758415188451115896881736425270152937447465346052978426884365185611389nat, 21888242871839275222246405745257275088696311157297823662689037894645226208583nat) == 9647301495303035796639607602496785797111323744734570762679271212476736737781nat);
    lemma_fundamental_div_mod_converse(9647301495303035796639607602496785797111323744734570762679271212476736737781int * 9647301495303035796639607602496785797111323744734570762679271212476736737781int, m, 4252073895845594491670673305628476093437968421844808062092089127749403940712int, 5174009788284520061585031451884110393659339022127452523169257362306875272865int);
    lemma_fundamental_div_mod_converse(5174009788284520061585031451884110393659339022127452523169257362306875272865int * 3, m, 0int, 15522029364853560184755094355652331180978017066382357569507772086920625818595int);
    assert(mod_pow(3, 11516830376902231793763472850540305874894930692105956853768730371222779nat, 21888242871839275222246405745257275088696311157297823662689037894645226208583nat) == 15522029364853560184755094355652331180978017066382357569507772086920625818595nat);
    lemma_fundamental_div_mod_converse(15522029364853560184755094355652331180978017066382357569507772086920625818595int * 15522029364853560184755094355652331180978017066382357569507772086920625818595int, m, 11007434311383374914585634593017963598827085768894803334888184639087110560088int, 9328509715302965041101034818283273694801459747626204578400828581592004938721int);
    assert(mod_pow(3, 23033660753804463587526945701080611749789861384211913707537460742445558nat, 21888242871839275222246405745257275088696311157297823662689037894645226208583nat) == 9328509715302965041101034818283273694801459747626204578400828581592004938721nat);
    lemma_fundamental_div_mod_converse(9328509715302965041101034818283273694801459747626204578400828581592004938721int * 9328509715302965041101034818283273694801459747626204578400828581592004938721int, m, 3975700288873366236141452445765973367580025958383059450683304445498733070278int, 6201896748400027871077093315069630274557979022200561415966803274622139319767int);
    lemma_fundamental_div_mod_converse(6201896748400027871077093315069630274557979022200561415966803274622139319767int * 3, m, 0int, 18605690245200083613231279945208890823673937066601684247900409823866417959301int);
    assert(mod_pow(3, 46067321507608927175053891402161223499579722768423827415074921484891117nat, 21888242871839275222246405745257275088696311157297823662689037894645226208583nat) == 18605690245200083613231279945208890823673937066601684247900409823866417959301nat);
    lemma_fundamental_div_mod_converse(18605690245200083613231279945208890823673937066601684247900409823866417959301int * 18605690245200083613231279945208890823673937066601684247900409823866417959301int, m, 15815417963298789049732296392943788688524452246313379661482128663216926777514int, 1995697297647453139291098580100670580537981559508367223048435404823094205939int);
    lemma_fundamental_div_mod_converse(1995697297647453139291098580100670580537981559508367223048435404823094205939int * 3, m, 0int, 5987091892942359417873295740302011741613944678525101669145306214469282617817int);
    assert(mod_pow(3, 92134643015217854350107782804322446999159445536847654830149842969782235nat, 21888242871839275222246405745257275088696311157297823662689037894645226208583nat) == 5987091892942359417873295740302011741613944678525101669145306214469282617817nat);
    lemma_fundamental_div_mod_converse(5987091892942359417873295740302011741613944678525101669145306214469282617817int * 5987091892942359417873295740302011741613944678525101669145306214469282617817int, m, 1637649469828092986273884698784247643867574330848122627787212906275592441361int, 1912746019436501886400788514668908332701885729183640563713633075685703444026int);
    lemma_fundamental_div_mod_converse(1912746019436501886400788514668908332701885729183640563713633075685703444026int * 3, m, 0int, 5738238058309505659202365544006724998105657187550921691140899227057110332078int);
    assert(mod_pow(3, 184269286030435708700215565608644893998318891073695309660299685939564471nat, 21888242871839275222246405745257275088696311157297823662689037894645226208583nat) == 5738238058309505659202365544006724998105657187550921691140899227057110332078nat);
    lemma_fundamental_div_mod_converse(5738238058309505659202365544006724998105657187550921691140899227057110332078int * 5738238058309505659202365544006724998105657187550921691140899227057110332078int, m, 1504340764429061224861536271631473424329170393847352759508972105902298395171int, 19545218232020850111607710797447080378152186262726075253217837826349629845391int);
    lemma_fundamental_div_mod_converse(19545218232020850111607710797447080378152186262726075253217837826349629845391int * 3, m, 2int, 14859168952383999890330320901826690957063936473582578434275437689758437119007int);
    assert(mod_pow(3, 368538572060871417400431131217289787996637782147390619320599371879128943nat, 21888242871839275222246405745257275088696311157297823662689037894645226208583nat) == 14859168952383999890330320901826690957063936473582578434275437689758437119007nat);
    lemma_fundamental_div_mod_converse(14859168952383999890330320901826690957063936473582578434275437689758437119007int * 14859168952383999890330320901826690957063936473582578434275437689758437119007int, m, 10087374452499354915650175630841615488411453340689538923516475234937883733042int, 1583993489363392709832793750860799164935077524112444462336181001278099566563int);
    assert(mod_pow(3, 737077144121742834800862262434579575993275564294781238641198743758257886nat, 21888242871839275222246405745257275088696311157297823662689037894645226208583nat) == 1583993489363392709832793750860799164935077524112444462336181001278099566563nat);
    lemma_fundamental_div_mod_converse(1583993489363392709832793750860799164935077524112444462336181001278099566563int * 1583993489363392709832793750860799164935077524112444462336181001278099566563int, m, 114629364679321174929285434906491910579366415517330925699172183615610092894int, 5848925174419199402448136879544308129864054687221942402146969920104417523767int);
    lemma_fundamental_div_mod_converse(5848925174419199402448136879544308129864054687221942402146969920104417523767int * 3, m, 0int, 17546775523257598207344410638632924389592164061665827206440909760313252571301int);
    assert(mod_pow(3, 1474154288243485669601724524869159151986551128589562477282397487516515773nat, 21888242871839275222246405745257275088696311157297823662689037894645226208583nat) == 17546775523257598207344410638632924389592164061665827206440909760313252571301nat);
    lemma_fundamental_div_mod_converse(17546775523257598207344410638632924389592164061665827206440909760313252571301int * 17546775523257598207344410638632924389592164061665827206440909760313252571301int, m, 14066425206735652966534099943243578513611129099097351424831718951148220454724int, 10190092108367977454382955970490067262018977867222541266797779221673357136509int);
    lemma_fundamental_div_mod_converse(10190092108367977454382955970490067262018977867222541266797779221673357136509int * 3, m, 1int, 8682033453264657140902462166212926697360622444369800137704299770374845200944int);
    assert(mod_pow(3, 2948308576486971339203449049738318303973102257179124954564794975033031547nat, 21888242871839275222246405745257275088696311157297823662689037894645226208583nat) == 8682033453264657140902462166212926697360622444369800137704299770374845200944nat);
    lemma_fundamental_div_mod_converse(8682033453264657140902462166212926697360622444369800137704299770374845200944int * 8682033453264657140902462166212926697360622444369800137704299770374845200944int, m, 3443753129246624523985566736636239281957887120806288280762019195027671667706int, 11868611191363089426792006691494817325215868185553856090650603342636717370538int);
    assert(mod_pow(3, 5896617152973942678406898099476636607946204514358249909129589950066063094nat, 21888242871839275222246405745257275088696311157297823662689037894645226208583nat) == 11868611191363089426792006691494817325215868185553856090650603342636717370538nat);
    lemma_fundamental_div_mod_converse(11868611191363089426792006691494817325215868185553856090650603342636717370538int * 11868611191363089426792006691494817325215868185553856090650603342636717370538int, m, 6435597979999585825341965767973991118083705463057174114578292074587863684430int, 2703570204008460467398828601776826059234139010476698667706768106422720946754int);
    lemma_fundamental_div_mod_converse(2703570204008460467398828601776826059234139010476698667706768106422720946754int * 3, m, 0int, 8110710612025381402196485805330478177702417031430096003120304319268162840262int);
    assert(mod_pow(3, 11793234305947885356813796198953273215892409028716499818259179900132126189nat, 21888242871839275222246405745257275088696311157297823662689037894645226208583nat) == 8110710612025381402196485805330478177702417031430096003120304319268162840262nat);
    lemma_fundamental_div_mod_converse(8110710612025381402196485805330478177702417031430096003120304319268162840262int * 8110710612025381402196485805330478177702417031430096003120304319268162840262int, m, 3005432049397454454491971083670980960982710347492850498428194125218730966489int, 4312923680474177537992474318970897025820796708697968895001430804990231053557int);
    lemma_fundamental_div_mod_converse(4312923680474177537992474318970897025820796708697968895001430804990231053557int * 3, m, 0int, 12938771041422532613977422956912691077462390126093906685004292414970693160671int);
    assert(mod_pow(3, 23586468611895770713627592397906546431784818057432999636518359800264252379nat, 21888242871839275222246405745257275088696311157297823662689037894645226208583nat) == 12938771041422532613977422956912691077462390126093906685004292414970693160671nat);
    lemma_fundamental_div_mod_converse(12938771041422532613977422956912691077462390126093906685004292414970693160671int * 12938771041422532613977422956912691077462390126093906685004292414970693160671int, m, 7648480375633124941547985893708821855538827329750305090200524677744587541777int, 9189505341340989838721286840073568339374124213478839960252914893545992698250int);
    lemma_fundamental_div_mod_converse(9189505341340989838721286840073568339374124213478839960252914893545992698250int * 3, m, 1int, 5680273152183694293917454774963429929426061483138696218069706785992751886167int);
    assert(mod_pow(3, 47172937223791541427255184795813092863569636114865999273036719600528504759nat, 21888242871839275222246405745257275088696311157297823662689037894645226208583nat) == 5680273152183694293917454774963429929426061483138696218069706785992751886167nat);
    lemma_fundamental_div_mod_converse(5680273152183694293917454774963429929426061483138696218069706785992751886167int * 5680273152183694293917454774963429929426061483138696218069706785992751886167int, m, 1474102022366110711520182874633898726784348031644811467187441754864250304684int, 13511405689052101033823480095450150272736095052771670653805376242176240049117int);
    lemma_fundamental_div_mod_converse(13511405689052101033823480095450150272736095052771670653805376242176240049117int * 3, m, 1int, 18645974195317027879224034541093175729511974001017188298727090831883493938768int);
    assert(mod_pow(3, 94345874447583082854510369591626185727139272229731998546073439201057009519nat, 21888242871839275222246405745257275088696311157297823662689037894645226208583nat) == 18645974195317027879224034541093175729511974001017188298727090831883493938768nat);
    lemma_fundamental_div_mod_converse(18645974195317027879224034541093175729511974001017188298727090831883493938768int * 18645974195317027879224034541093175729511974001017188298727090831883493938768int, m, 15883977335601150490670687545464773370660574038080530196557045565998768585631int, 8234638207090067817935093768212328277501187603546735369238358988299030686951int);
    lemma_fundamental_div_mod_converse(8234638207090067817935093768212328277501187603546735369238358988299030686951int * 3, m, 1int, 2815671749430928231558875559379709743807251653342382445026039070251865852270int);
    assert(mod_pow(3, 188691748895166165709020739183252371454278544459463997092146878402114019039nat, 21888242871839275222246405745257275088696311157297823662689037894645226208583nat) == 2815671749430928231558875559379709743807251653342382445026039070251865852270nat);
    lemma_fundamental_div_mod_converse(2815671749430928231558875559379709743807251653342382445026039070251865852270int * 2815671749430928231558875559379709743807251653342382445026039070251865852270int, m, 362203921391211755960567461840284747157013705824479657299173870925382342787int, 1334998698214372160047588130229710295762552475830380391147948025583396612079int);
    lemma_fundamental_div_mod_converse(1334998698214372160047588130229710295762552475830380391147948025583396612079int * 3, m, 0int, 4004996094643116480142764390689130887287657427491141173443844076750189836237int);
    assert(mod_pow(3, 377383497790332331418041478366504742908557088918927994184293756804228038079nat, 21888242871839275222246405745257275088696311157297823662689037894645226208583nat) == 4004996094643116480142764390689130887287657427491141173443844076750189836237nat);
    lemma_fundamental_div_mod_converse(4004996094643116480142764390689130887287657427491141173443844076750189836237int * 4004996094643116480142764390689130887287657427491141173443844076750189836237int, m, 732813219042957815188518074531744158308268614917741131045469977119022935832int, 19433260757112203149040899379563167323735763231524821801948606396997821674113int);
    assert(mod_pow(3, 754766995580664662836082956733009485817114177837855988368587513608456076158nat, 21888242871839275222246405745257275088696311157297823662689037894645226208583nat) == 19433260757112203149040899379563167323735763231524821801948606396997821674113nat);
}

#[verifier::rlimit(100)]
pub proof fn lemma_pow_base_modulus_by_67()
    ensures
        mod_pow(3, 326690192117004107794722473809810075950691211302952591980433401412615316546nat, 21888242871839275222246405745257275088696311157297823662689037894645226208583nat) == 21416043524944433016670818817864259343946572146370358017997215485720702071283nat,
{
    let m = 21888242871839275222246405745257275088696311157297823662689037894645226208583int;
    lemma_fundamental_div_mod_converse(1, m, 0, 1);
    assert(mod_pow(3, 0, 21888242871839275222246405745257275088696311157297823662689037894645226208583nat) == 1);
    lemma_fundamental_div_mod_converse(1int * 1int, m, 0int, 1int);
    lemma_fundamental_div_mod_converse(1int * 3, m, 0int, 3int);
    assert(mod_pow(3, 1, 21888242871839275222246405745257275088696311157297823662689037894645226208583nat) == 3);
    lemma_fundamental_div_mod_converse(3int * 3int, m, 0int, 9int);
    assert(mod_pow(3, 2, 21888242871839275222246405745257275088696311157297823662689037894645226208583nat) == 9);
    lemma_fundamental_div_mod_converse(9int * 9int, m, 0int, 81int);
    lemma_fundamental_div_mod_converse(81int * 3, m, 0int, 243int);
    assert(mod_pow(3, 5, 21888242871839275222246405745257275088696311157297823662689037894645226208583nat) == 243);
    lemma_fundamental_div_mod_converse(243int * 243int, m, 0int, 59049int);
    lemma_fundamental_div_mod_converse(59049int * 3, m, 0int, 177147int);
    assert(mod_pow(3, 11, 21888242871839275222246405745257275088696311157297823662689037894645226208583nat) == 177147);
    lemma_fundamental_div_mod_converse(177147int * 177147int, m, 0int, 31381059609int);
    lemma_fundamental_div_mod_converse(31381059609int * 3, m, 0int, 94143178827int);
    assert(mod_pow(3, 23, 21888242871839275222246405745257275088696311157297823662689037894645226208583nat) == 94143178827);
    lemma_fundamental_div_mod_converse(94143178827int * 94143178827int, m, 0int, 8862938119652501095929int);
    assert(mod_pow(3, 46, 21888242871839275222246405745257275088696311157297823662689037894645226208583nat) == 8862938119652501095929nat);
    lemma_fundamental_div_mod_converse(8862938119652501095929int * 8862938119652501095929int, m, 0int, 78551672112789411833022577315290546060373041int);
    assert(mod_pow(3, 92, 21888242871839275222246405745257275088696311157297823662689037894645226208583nat) == 78551672112789411833022577315290546060373041nat);
    lemma_fundamental_div_mod_converse(78551672112789411833022577315290546060373041int * 78551672112789411833022577315290546060373041int, m, 281903176415int, 704340979801093964929332893467937058549735965537522440734737069921043417736int);
    assert(mod_pow(3, 184, 21888242871839275222246405745257275088696311157297823662689037894645226208583nat) == 704340979801093964929332893467937058549735965537522440734737069921043417736nat);
    lemma_fundamental_div_mod_converse(704340979801093964929332893467937058549735965537522440734737069921043417736int * 704340979801093964929332893467937058549735965537522440734737069921043417736int, m, 22664963045774078244096386052922114430727262356431196058921755521922681727int, 9275692898387366380678098137807466263860795063742119958034509715627774702855int);
    lemma_fundamental_div_mod_converse(9275692898387366380678098137807466263860795063742119958034509715627774702855int * 3, m, 1int, 5938835823322823919787888668165123702886074033928536211414491252238097899982int);
    assert(mod_pow(3, 369, 21888242871839275222246405745257275088696311157297823662689037894645226208583nat) == 5938835823322823919787888668165123702886074033928536211414491252238097899982nat);
    lemma_fundamental_div_mod_converse(5938835823322823919787888668165123702886074033928536211414491252238097899982int * 5938835823322823919787888668165123702886074033928536211414491252238097899982int, m, 1611356888851021555206256684792773256637630825409745655371791637303178880339int, 5090512515125969022348877367562799205952836731880331767851978983266463850687int);
    lemma_fundamental_div_mod_converse(5090512515125969022348877367562799205952836731880331767851978983266463850687int * 3, m, 0int, 15271537545377907067046632102688397617858510195640995303555936949799391552061int);
    assert(mod_pow(3, 739, 21888242871839275222246405745257275088696311157297823662689037894645226208583nat) == 15271537545377907067046632102688397617858510195640995303555936949799391552061nat);
    lemma_fundamental_div_mod_converse(15271537545377907067046632102688397617858510195640995303555936949799391552061int * 15271537545377907067046632102688397617858510195640995303555936949799391552061int, m, 10655028837419398591404762497621424688353525034677484072948898521706636613027int, 11320801574462061680890160261512005952836268563594533619157143734150716336980int);
    lemma_fundamental_div_mod_converse(11320801574462061680890160261512005952836268563594533619157143734150716336980int * 3, m, 1int, 12074161851546909820424075039278742769812494533485777194782393307806922802357int);
    assert(mod_pow(3, 1479, 21888242871839275222246405745257275088696311157297823662689037894645226208583nat) == 12074161851546909820424075039278742769812494533485777194782393307806922802357nat);
    lemma_fundamental_div_mod_converse(12074161851546909820424075039278742769812494533485777194782393307806922802357int * 12074161851546909820424075039278742769812494533485777194782393307806922802357int, m, 6660442561376801581897223742101343316752237149888552622729231672166467123656int, 21143908628960805659587181787984542422222666323677727613947045871395775216001int);
    assert(mod_pow(3, 2958, 21888242871839275222246405745257275088696311157297823662689037894645226208583nat) == 21143908628960805659587181787984542422222666323677727613947045871395775216001nat);
    lemma_fundamental_div_mod_converse(21143908628960805659587181787984542422222666323677727613947045871395775216001int * 21143908628960805659587181787984542422222666323677727613947045871395775216001int, m, 20424886306658394147973914000113200038022567240886585852095283132653730213101int, 15726756262959767462695085214241926309630178232620445417036747257323341186118int);
    assert(mod_pow(3, 5916, 21888242871839275222246405745257275088696311157297823662689037894645226208583nat) == 15726756262959767462695085214241926309630178232620445417036747257323341186118nat);
    lemma_fundamental_div_mod_converse(15726756262959767462695085214241926309630178232620445417036747257323341186118int * 15726756262959767462695085214241926309630178232620445417036747257323341186118int, m, 11299713001300455161257136763630619785182523033388971938247397064742732531627int, 20955084923220874296968042322200155686585821214955247422402710069252769555383int);
    lemma_fundamental_div_mod_converse(20955084923220874296968042322200155686585821214955247422402710069252769555383int * 3, m, 2int, 19088769025984072446411315476085916882364841330270094941830054418467856248983int);
    assert(mod_pow(3, 11833, 21888242871839275222246405745257275088696311157297823662689037894645226208583nat) == 19088769025984072446411315476085916882364841330270094941830054418467856248983nat);
    lemma_fundamental_div_mod_converse(19088769025984072446411315476085916882364841330270094941830054418467856248983int * 19088769025984072446411315476085916882364841330270094941830054418467856248983int, m, 16647343738869517900121483685515264781483026268075484232646869042759243506218int, 17173123137757912218657881008190596117328046332374359100495962214139363065195int);
    lemma_fundamental_div_mod_converse(17173123137757912218657881008190596117328046332374359100495962214139363065195int * 3, m, 2int, 7742883669595186211480831534057238174591516682527429976109810853127636778419int);
    assert(mod_pow(3, 23667, 21888242871839275222246405745257275088696311157297823662689037894645226208583nat) == 7742883669595186211480831534057238174591516682527429976109810853127636778419nat);
    lemma_fundamental_div_mod_converse(7742883669595186211480831534057238174591516682527429976109810853127636778419int * 7742883669595186211480831534057238174591516682527429976109810853127636778419int, m, 2739016003793364911891557645138111355642212420808025600716748685564753055414int, 17075701344692038232333499722959213727493929372759578234693615817740782721199int);
    assert(mod_pow(3, 47334, 21888242871839275222246405745257275088696311157297823662689037894645226208583nat) == 17075701344692038232333499722959213727493929372759578234693615817740782721199nat);
    lemma_fundamental_div_mod_converse(17075701344692038232333499722959213727493929372759578234693615817740782721199int * 17075701344692038232333499722959213727493929372759578234693615817740782721199int, m, 13321287511308392597181646439967203122962886092536286032611495048768777166036int, 932867150534940693723282162061816948046964696493179635525707938403604710613int);
    assert(mod_pow(3, 94668, 21888242871839275222246405745257275088696311157297823662689037894645226208583nat) == 932867150534940693723282162061816948046964696493179635525707938403604710613nat);
    lemma_fundamental_div_mod_converse(932867150534940693723282162061816948046964696493179635525707938403604710613int * 932867150534940693723282162061816948046964696493179635525707938403604710613int, m, 39758381960701128414268080860388569689003351789976494528258667333873224039int, 2186275882532686716218172013905691612358802481190779990024627195936971109032int);
    lemma_fundamental_div_mod_converse(2186275882532686716218172013905691612358802481190779990024627195936971109032int * 3, m, 0int, 6558827647598060148654516041717074837076407443572339970073881587810913327096int);
    assert(mod_pow(3, 189337, 21888242871839275222246405745257275088696311157297823662689037894645226208583nat) == 6558827647598060148654516041717074837076407443572339970073881587810913327096nat);
    lemma_fundamental_div_mod_converse(6558827647598060148654516041717074837076407443572339970073881587810913327096int * 6558827647598060148654516041717074837076407443572339970073881587810913327096int, m, 1965357400444536931209123199721526009270117950318320459726281274351032214301int, 18898755330430253415765427814535366918553360954761294406721705205974906247733int);
    lemma_fundamental_div_mod_converse(18898755330430253415765427814535366918553360954761294406721705205974906247733int * 3, m, 2int, 12919780247612209802803471953091550578267460549688235894787039828634266326033int);
    assert(mod_pow(3, 378675, 21888242871839275222246405745257275088696311157297823662689037894645226208583nat) == 12919780247612209802803471953091550578267460549688235894787039828634266326033nat);
    lemma_fundamental_div_mod_converse(12919780247612209802803471953091550578267460549688235894787039828634266326033int * 12919780247612209802803471953091550578267460549688235894787039828634266326033int, m, 7626044841696523898396531957677190208555408310279546111559354629814693081493int, 46750672518407466548729849606069188591039073951605444713252407870418462670int);
    assert(mod_pow(3, 757350, 21888242871839275222246405745257275088696311157297823662689037894645226208583nat) == 46750672518407466548729849606069188591039073951605444713252407870418462670nat);
    lemma_fundamental_div_mod_converse(46750672518407466548729849606069188591039073951605444713252407870418462670int * 46750672518407466548729849606069188591039073951605444713252407870418462670int, m, 99853852761079145201310994216032392775716639262673633416985360382696415int, 11476841260428467359936320853953635120710982658297469733876300425037427198955int);
    lemma_fundamental_div_mod_converse(11476841260428467359936320853953635120710982658297469733876300425037427198955int * 3, m, 1int, 12542280909446126857562556816603630273436636817594585538939863380467055388282int);
    assert(mod_pow(3, 1514701, 21888242871839275222246405745257275088696311157297823662689037894645226208583nat) == 12542280909446126857562556816603630273436636817594585538939863380467055388282nat);
    lemma_fundamental_div_mod_converse(12542280909446126857562556816603630273436636817594585538939863380467055388282int * 12542280909446126857562556816603630273436636817594585538939863380467055388282int, m, 7186909032969719570254246931382273339252494512313345801711773547720404198064int, 6885033646031501156047484215971729902052678494206886026921701562138474128212int);
    lemma_fundamental_div_mod_converse(6885033646031501156047484215971729902052678494206886026921701562138474128212int * 3, m, 0int, 20655100938094503468142452647915189706158035482620658080765104686415422384636int);
    assert(mod_pow(3, 3029403, 21888242871839275222246405745257275088696311157297823662689037894645226208583nat) == 20655100938094503468142452647915189706158035482620658080765104686415422384636nat);
    lemma_fundamental_div_mod_converse(20655100938094503468142452647915189706158035482620658080765104686415422384636int * 20655100938094503468142452647915189706158035482620658080765104686415422384636int, m, 19491431873307897442033304922740712985334969992879973897250149424177547903834int, 9216548592816464817126731543341532560099425583648007898978013627989819445274int);
    assert(mod_pow(3, 6058806, 21888242871839275222246405745257275088696311157297823662689037894645226208583nat) == 9216548592816464817126731543341532560099425583648007898978013627989819445274nat);
    lemma_fundamental_div_mod_converse(9216548592816464817126731543341532560099425583648007898978013627989819445274int * 9216548592816464817126731543341532560099425583648007898978013627989819445274int, m, 3880839977019554378457290388050172916599171157552580448905113153395509964778int, 13816823848711897853346207153169529637482932504716063868212547077024269645502int);
    assert(mod_pow(3, 12117612, 21888242871839275222246405745257275088696311157297823662689037894645226208583nat) == 13816823848711897853346207153169529637482932504716063868212547077024269645502nat);
    lemma_fundamental_div_mod_converse(13816823848711897853346207153169529637482932504716063868212547077024269645502int * 13816823848711897853346207153169529637482932504716063868212547077024269645502int, m, 8721788331028880456153094092519771526851969358393648173907806482497896610931int, 291294392543753797628181069679360666096177961949063659320614143458545011231int);
    lemma_fundamental_div_mod_converse(291294392543753797628181069679360666096177961949063659320614143458545011231int * 3, m, 0int, 873883177631261392884543209038081998288533885847190977961842430375635033693int);
    assert(mod_pow(3, 24235225, 21888242871839275222246405745257275088696311157297823662689037894645226208583nat) == 873883177631261392884543209038081998288533885847190977961842430375635033693nat);
    lemma_fundamental_div_mod_converse(873883177631261392884543209038081998288533885847190977961842430375635033693int * 873883177631261392884543209038081998288533885847190977961842430375635033693int, m, 34889589475883734792637955515752106961998714138067830602387193761733358304int, 21336407755316156179252434041846395203591527403841233200743890492855466095017int);
    assert(mod_pow(3, 48470450, 21888242871839275222246405745257275088696311157297823662689037894645226208583nat) == 21336407755316156179252434041846395203591527403841233200743890492855466095017nat);
    lemma_fundamental_div_mod_converse(21336407755316156179252434041846395203591527403841233200743890492855466095017int * 21336407755316156179252434041846395203591527403841233200743890492855466095017int, m, 20798485221799865555218550492348843739239775457952551301480543050553026137270int, 9401307253389597681816920116004269543891759799106447411138331123611062041879int);
    lemma_fundamental_div_mod_converse(9401307253389597681816920116004269543891759799106447411138331123611062041879int * 3, m, 1int, 6315678888329517823204354602755533542978968240021518570725955476187959917054int);
    assert(mod_pow(3, 96940901, 21888242871839275222246405745257275088696311157297823662689037894645226208583nat) == 6315678888329517823204354602755533542978968240021518570725955476187959917054nat);
    lemma_fundamental_div_mod_converse(6315678888329517823204354602755533542978968240021518570725955476187959917054int * 6315678888329517823204354602755533542978968240021518570725955476187959917054int, m, 1822339054534595037277840545894559627378775596665257225185103055895292255171int, 16968245083527924279814625351974653758980402335975802356060107510238453706223int);
    lemma_fundamental_div_mod_converse(16968245083527924279814625351974653758980402335975802356060107510238453706223int * 3, m, 2int, 7128249506905222394951064565409411099548584693331759742802246741424908701503int);
    assert(mod_pow(3, 193881803, 21888242871839275222246405745257275088696311157297823662689037894645226208583nat) == 7128249506905222394951064565409411099548584693331759742802246741424908701503nat);
    lemma_fundamental_div_mod_converse(7128249506905222394951064565409411099548584693331759742802246741424908701503int * 7128249506905222394951064565409411099548584693331759742802246741424908701503int, m, 2321426225495130595617946110815487264013156498332046600950745710865181300911int, 5731862583461083520817155799874673143900206212627491901208707171253380539896int);
    assert(mod_pow(3, 387763606, 21888242871839275222246405745257275088696311157297823662689037894645226208583nat) == 5731862583461083520817155799874673143900206212627491901208707171253380539896nat);
    lemma_fundamental_div_mod_converse(5731862583461083520817155799874673143900206212627491901208707171253380539896int * 5731862583461083520817155799874673143900206212627491901208707171253380539896int, m, 1500999822966621480450219594930925584506938735715098557975897039451812061304int, 13961914638035693044998066701948121391275564531086743075921163609738560718584int);
    assert(mod_pow(3, 775527212, 21888242871839275222246405745257275088696311157297823662689037894645226208583nat) == 13961914638035693044998066701948121391275564531086743075921163609738560718584nat);
    lemma_fundamental_div_mod_converse(13961914638035693044998066701948121391275564531086743075921163609738560718584int * 13961914638035693044998066701948121391275564531086743075921163609738560718584int, m, 8905925500789863514251688570009369624379489195070093875442921488574519089612int, 8364581612045340182419176449302121562580747605138030527488291766406862425260int);
    lemma_fundamental_div_mod_converse(8364581612045340182419176449302121562580747605138030527488291766406862425260int * 3, m, 1int, 3205501964296745325011123602649089599045931658116267919775837404575361067197int);
    assert(mod_pow(3, 1551054425, 21888242871839275222246405745257275088696311157297823662689037894645226208583nat) == 3205501964296745325011123602649089599045931658116267919775837404575361067197nat);
    lemma_fundamental_div_mod_converse(3205501964296745325011123602649089599045931658116267919775837404575361067197int * 3205501964296745325011123602649089599045931658116267919775837404575361067197int, m, 469441192848334891764761785596613568814590312896138599155633947048455012886int, 3905072582086754082973706699030876691306659318250032528026117385796560636271int);
    lemma_fundamental_div_mod_converse(3905072582086754082973706699030876691306659318250032528026117385796560636271int * 3, m, 0int, 11715217746260262248921120097092630073919977954750097584078352157389681908813int);
    assert(mod_pow(3, 3102108851, 21888242871839275222246405745257275088696311157297823662689037894645226208583nat) == 11715217746260262248921120097092630073919977954750097584078352157389681908813nat);
    lemma_fundamental_div_mod_converse(11715217746260262248921120097092630073919977954750097584078352157389681908813int * 11715217746260262248921120097092630073919977954750097584078352157389681908813int, m, 6270321818242805837187417127412579350503642702646419589165136777809776705615int, 21350829043843144241131298883944203249359250465545255526570623974344669775424int);
    assert(mod_pow(3, 6204217702, 21888242871839275222246405745257275088696311157297823662689037894645226208583nat) == 21350829043843144241131298883944203249359250465545255526570623974344669775424nat);
    lemma_fundamental_div_mod_converse(21350829043843144241131298883944203249359250465545255526570623974344669775424int * 21350829043843144241131298883944203249359250465545255526570623974344669775424int, m, 20826610136253028745960891236213968840799531659043667756390041620518852809539int, 8635845093272698173643433866638986286011970543712671363373757605344208306539int);
    assert(mod_pow(3, 12408435404, 21888242871839275222246405745257275088696311157297823662689037894645226208583nat) == 8635845093272698173643433866638986286011970543712671363373757605344208306539nat);
    lemma_fundamental_div_mod_converse(8635845093272698173643433866638986286011970543712671363373757605344208306539int * 8635845093272698173643433866638986286011970543712671363373757605344208306539int, m, 3407209108180703485078002679960916283518585686827135316652317931001456258186int, 7124185528887826445432299992496504826484128830651884134345998475375452948083int);
    assert(mod_pow(3, 24816870808, 21888242871839275222246405745257275088696311157297823662689037894645226208583nat) == 7124185528887826445432299992496504826484128830651884134345998475375452948083nat);
    lemma_fundamental_div_mod_converse(7124185528887826445432299992496504826484128830651884134345998475375452948083int * 7124185528887826445432299992496504826484128830651884134345998475375452948083int, m, 2318779983719627140757358935169534957774076405060261028504430341333402666100int, 18253205549266955093883006118095379606199896817044887266600114692048990238589int);
    lemma_fundamental_div_mod_converse(18253205549266955093883006118095379606199896817044887266600114692048990238589int * 3, m, 2int, 10983130904122314837156206863771588641207068136539014474422268286856518298601int);
    assert(mod_pow(3, 49633741617, 21888242871839275222246405745257275088696311157297823662689037894645226208583nat) == 10983130904122314837156206863771588641207068136539014474422268286856518298601nat);
    lemma_fundamental_div_mod_converse(10983130904122314837156206863771588641207068136539014474422268286856518298601int * 10983130904122314837156206863771588641207068136539014474422268286856518298601int, m, 5511139709267587921204245681999112245793555074449613769956931516441726974646int, 9788250959742238503161614105131992656202696275817850698037073178674249970583int);
    lemma_fundamental_div_mod_converse(9788250959742238503161614105131992656202696275817850698037073178674249970583int * 3, m, 1int, 7476510007387440287238436570138702879911777670155728431422181641377523703166int);
    assert(mod_pow(3, 99267483235, 21888242871839275222246405745257275088696311157297823662689037894645226208583nat) == 7476510007387440287238436570138702879911777670155728431422181641377523703166nat);
    lemma_fundamental_div_mod_converse(7476510007387440287238436570138702879911777670155728431422181641377523703166int * 7476510007387440287238436570138702879911777670155728431422181641377523703166int, m, 2553800330975009907093988440489845181060769093470826466953690246051866046880int, 9201314084333353014101242965048377532308982439678289699627312343599542052516int);
    lemma_fundamental_div_mod_converse(9201314084333353014101242965048377532308982439678289699627312343599542052516int * 3, m, 1int, 5715699381160783820057323149887857508230636161737045436192899136153399948965int);
    assert(mod_pow(3, 198534966471, 21888242871839275222246405745257275088696311157297823662689037894645226208583nat) == 5715699381160783820057323149887857508230636161737045436192899136153399948965nat);
    lemma_fundamental_div_mod_converse(5715699381160783820057323149887857508230636161737045436192899136153399948965int * 5715699381160783820057323149887857508230636161737045436192899136153399948965int, m, 1492546460083050211535615500156730145801132815571677024363720850163897429407int, 19564143407205336361229219888540251280608098765884688588666811441686104570944int);
    lemma_fundamental_div_mod_converse(19564143407205336361229219888540251280608098765884688588666811441686104570944int * 3, m, 2int, 14915944477937458639194848175106203664431673983058418440622358535767861295666int);
    assert(mod_pow(3, 397069932943, 21888242871839275222246405745257275088696311157297823662689037894645226208583nat) == 14915944477937458639194848175106203664431673983058418440622358535767861295666nat);
    lemma_fundamental_div_mod_converse(14915944477937458639194848175106203664431673983058418440622358535767861295666int * 14915944477937458639194848175106203664431673983058418440622358535767861295666int, m, 10164607591921217322714634668259122904522513906414275164603003883890305916501int, 3476087433459101856347959097633371633858373253403845018443660335915062855473int);
    lemma_fundamental_div_mod_converse(3476087433459101856347959097633371633858373253403845018443660335915062855473int * 3, m, 0int, 10428262300377305569043877292900114901575119760211535055330981007745188566419int);
    assert(mod_pow(3, 794139865887, 21888242871839275222246405745257275088696311157297823662689037894645226208583nat) == 10428262300377305569043877292900114901575119760211535055330981007745188566419nat);
    lemma_fundamental_div_mod_converse(10428262300377305569043877292900114901575119760211535055330981007745188566419int * 10428262300377305569043877292900114901575119760211535055330981007745188566419int, m, 4968359280469387114528013285458247769589965196830369247423558019887950238649int, 4987241588138132473918648050802652792009585975005366540070599210740072359194int);
    assert(mod_pow(3, 1588279731774, 21888242871839275222246405745257275088696311157297823662689037894645226208583nat) == 4987241588138132473918648050802652792009585975005366540070599210740072359194nat);
    lemma_fundamental_div_mod_converse(4987241588138132473918648050802652792009585975005366540070599210740072359194int * 4987241588138132473918648050802652792009585975005366540070599210740072359194int, m, 1136344237593180177511082020917674837984937525407047487782974243502524928679int, 16204685065061754090202734238823926910742274456004039359817226177979303677779int);
    lemma_fundamental_div_mod_converse(16204685065061754090202734238823926910742274456004039359817226177979303677779int * 3, m, 2int, 4837569451506711826115391225957230554834201053416470754073602744647458616171int);
    assert(mod_pow(3, 3176559463549, 21888242871839275222246405745257275088696311157297823662689037894645226208583nat) == 4837569451506711826115391225957230554834201053416470754073602744647458616171nat);
    lemma_fundamental_div_mod_converse(4837569451506711826115391225957230554834201053416470754073602744647458616171int * 4837569451506711826115391225957230554834201053416470754073602744647458616171int, m, 1069162030738398210696821101475871595593154468083881527868406037626489361123int, 11333235363305350439034622281199520677196964878290762003536240374087093582532int);
    assert(mod_pow(3, 6353118927098, 21888242871839275222246405745257275088696311157297823662689037894645226208583nat) == 11333235363305350439034622281199520677196964878290762003536240374087093582532nat);
    lemma_fundamental_div_mod_converse(11333235363305350439034622281199520677196964878290762003536240374087093582532int * 11333235363305350439034622281199520677196964878290762003536240374087093582532int, m, 5868092041564683271569140117252356906447496461246044788384824444900101427470int, 17279327146812646681175107632560176642912932125591773672231803635644029556014int);
    assert(mod_pow(3, 12706237854196, 21888242871839275222246405745257275088696311157297823662689037894645226208583nat) == 17279327146812646681175107632560176642912932125591773672231803635644029556014nat);
    lemma_fundamental_div_mod_converse(17279327146812646681175107632560176642912932125591773672231803635644029556014int * 17279327146812646681175107632560176642912932125591773672231803635644029556014int, m, 13640891523125132759690407843408322083503445004996280748735220386278338922773int, 14705616525519460225634309459293506264373069747517010206698789857690736807537int);
    lemma_fundamental_div_mod_converse(14705616525519460225634309459293506264373069747517010206698789857690736807537int * 3, m, 2int, 340363832879830232410116887365968615726586927955383294718293783781758005445int);
    assert(mod_pow(3, 25412475708393, 21888242871839275222246405745257275088696311157297823662689037894645226208583nat) == 340363832879830232410116887365968615726586927955383294718293783781758005445nat);
    lemma_fundamental_div_mod_converse(340363832879830232410116887365968615726586927955383294718293783781758005445int * 340363832879830232410116887365968615726586927955383294718293783781758005445int, m, 5292683355670125668883222403286475645651893048076889683836121130494238096int, 14642337759476024750244750496677874032002431008642988949456537091735288870057int);
    lemma_fundamental_div_mod_converse(14642337759476024750244750496677874032002431008642988949456537091735288870057int * 3, m, 2int, 150527534749523806241439999519071918614670711333319522991535485915414193005int);
    assert(mod_pow(3, 50824951416787, 21888242871839275222246405745257275088696311157297823662689037894645226208583nat) == 150527534749523806241439999519071918614670711333319522991535485915414193005nat);
    lemma_fundamental_div_mod_converse(150527534749523806241439999519071918614670711333319522991535485915414193005int * 150527534749523806241439999519071918614670711333319522991535485915414193005int, m, 1035192219423006320926046980702646859626049592245159663572116384311445874int, 7403976096578178461507151682027763252217547972762780366013271484663552193483int);
    lemma_fundamental_div_mod_converse(7403976096578178461507151682027763252217547972762780366013271484663552193483int * 3, m, 1int, 323685417895260162275049300826014667956332760990517435350776559345430371866int);
    assert(mod_pow(3, 101649902833575, 21888242871839275222246405745257275088696311157297823662689037894645226208583nat) == 323685417895260162275049300826014667956332760990517435350776559345430371866nat);
    lemma_fundamental_div_mod_converse(323685417895260162275049300826014667956332760990517435350776559345430371866int * 323685417895260162275049300826014667956332760990517435350776559345430371866int, m, 4786690753181740714191079330015106031370927887674592816601039174699091062int, 3237347835923535360650634505359081627245190257014918573110266661652521336810int);
    assert(mod_pow(3, 203299805667150, 21888242871839275222246405745257275088696311157297823662689037894645226208583nat) == 3237347835923535360650634505359081627245190257014918573110266661652521336810nat);
    lemma_fundamental_div_mod_converse(3237347835923535360650634505359081627245190257014918573110266661652521336810int * 3237347835923535360650634505359081627245190257014918573110266661652521336810int, m, 478815091376867790253203983977877735382858506782679557157602778928871513142int, 21054451370463752647518616426544752496588495461156513310996786604942543278314int);
    lemma_fundamental_div_mod_converse(21054451370463752647518616426544752496588495461156513310996786604942543278314int * 3, m, 2int, 19386868367712707498063037789119707312372864068873892607612284025537177417776int);
    assert(mod_pow(3, 406599611334301, 21888242871839275222246405745257275088696311157297823662689037894645226208583nat) == 19386868367712707498063037789119707312372864068873892607612284025537177417776nat);
    lemma_fundamental_div_mod_converse(19386868367712707498063037789119707312372864068873892607612284025537177417776int * 19386868367712707498063037789119707312372864068873892607612284025537177417776int, m, 17171349354432521526000750296906287582392008627979311147056758688954262271012int, 19870013712523831008466960919500075592439981119627100477685060017615254290180int);
    lemma_fundamental_div_mod_converse(19870013712523831008466960919500075592439981119627100477685060017615254290180int * 3, m, 2int, 15833555393892942580908071267985676599927321044285654107677104263555310453374int);
    assert(mod_pow(3, 813199222668603, 21888242871839275222246405745257275088696311157297823662689037894645226208583nat) == 15833555393892942580908071267985676599927321044285654107677104263555310453374nat);
    lemma_fundamental_div_mod_converse(15833555393892942580908071267985676599927321044285654107677104263555310453374int * 15833555393892942580908071267985676599927321044285654107677104263555310453374int, m, 11453704981226287914908368454562001550126379871715704960954993088371550212865int, 11890263056876152080161677695156287120581860541952632749669450591346887963581int);
    assert(mod_pow(3, 1626398445337206, 21888242871839275222246405745257275088696311157297823662689037894645226208583nat) == 11890263056876152080161677695156287120581860541952632749669450591346887963581nat);
    lemma_fundamental_div_mod_converse(11890263056876152080161677695156287120581860541952632749669450591346887963581int * 11890263056876152080161677695156287120581860541952632749669450591346887963581int, m, 6459100275408893681677748241961455343449704049110346947868003684908510925325int, 15001150235534608407940050410381050150017341404579850355984366893690395279086int);
    assert(mod_pow(3, 3252796890674412, 21888242871839275222246405745257275088696311157297823662689037894645226208583nat) == 15001150235534608407940050410381050150017341404579850355984366893690395279086nat);
    lemma_fundamental_div_mod_converse(15001150235534608407940050410381050150017341404579850355984366893690395279086int * 15001150235534608407940050410381050150017341404579850355984366893690395279086int, m, 10281067772626114144614490771417122010683375009919837020835778667506847218780int, 6037134241572505706551835660223691660701174362589858090229783494978114206656int);
    lemma_fundamental_div_mod_converse(6037134241572505706551835660223691660701174362589858090229783494978114206656int * 3, m, 0int, 18111402724717517119655506980671074982103523087769574270689350484934342619968int);
    assert(mod_pow(3, 6505593781348825, 21888242871839275222246405745257275088696311157297823662689037894645226208583nat) == 18111402724717517119655506980671074982103523087769574270689350484934342619968nat);
    lemma_fundamental_div_mod_converse(18111402724717517119655506980671074982103523087769574270689350484934342619968int * 18111402724717517119655506980671074982103523087769574270689350484934342619968int, m, 14986260458528128789531461846856766591095504521937272302383912417801877357071int, 13293242677591997889536867783104383568200337127283958989808050076188656380631int);
    lemma_fundamental_div_mod_converse(13293242677591997889536867783104383568200337127283958989808050076188656380631int * 3, m, 1int, 17991485160936718446364197604055875615904700224554053306735112333920742933310int);
    assert(mod_pow(3, 13011187562697651, 21888242871839275222246405745257275088696311157297823662689037894645226208583nat) == 17991485160936718446364197604055875615904700224554053306735112333920742933310nat);
    lemma_fundamental_div_mod_converse(17991485160936718446364197604055875615904700224554053306735112333920742933310int * 17991485160936718446364197604055875615904700224554053306735112333920742933310int, m, 14788466127295218482361097791223717436230939241738522476949312868875717225753int, 10719698411067779763743852786250535982673994268695240055223238110871830318101int);
    lemma_fundamental_div_mod_converse(10719698411067779763743852786250535982673994268695240055223238110871830318101int * 3, m, 1int, 10270852361364064068985152613494332859325671648787896502980676437970264745720int);
    assert(mod_pow(3, 26022375125395303, 21888242871839275222246405745257275088696311157297823662689037894645226208583nat) == 10270852361364064068985152613494332859325671648787896502980676437970264745720nat);
    lemma_fundamental_div_mod_converse(10270852361364064068985152613494332859325671648787896502980676437970264745720int * 10270852361364064068985152613494332859325671648787896502980676437970264745720int, m, 4819500991770262743267905036776735616079940699731235629819916741557959667627int, 6224937139763179070153142293360241010248924158539687771397029640896203675859int);
    assert(mod_pow(3, 52044750250790606, 21888242871839275222246405745257275088696311157297823662689037894645226208583nat) == 6224937139763179070153142293360241010248924158539687771397029640896203675859nat);
    lemma_fundamental_div_mod_converse(6224937139763179070153142293360241010248924158539687771397029640896203675859int * 6224937139763179070153142293360241010248924158539687771397029640896203675859int, m, 1770349617412977317286543468179346890124544066130285067503520149091663488638int, 13095199410406953907574614078877284330975799808041984638750577664795900807927int);
    lemma_fundamental_div_mod_converse(13095199410406953907574614078877284330975799808041984638750577664795900807927int * 3, m, 1int, 17397355359381586500477436491374577904231088266828130253562695099742476215198int);
    assert(mod_pow(3, 104089500501581213, 21888242871839275222246405745257275088696311157297823662689037894645226208583nat) == 17397355359381586500477436491374577904231088266828130253562695099742476215198nat);
    lemma_fundamental_div_mod_converse(17397355359381586500477436491374577904231088266828130253562695099742476215198int * 17397355359381586500477436491374577904231088266828130253562695099742476215198int, m, 13827878979267280745243473709942628153403735062746409764752469672257404917920int, 7437127657042460649830581853990240273549147797578334866061104822606891671844int);
    lemma_fundamental_div_mod_converse(7437127657042460649830581853990240273549147797578334866061104822606891671844int * 3, m, 1int, 423140099288106727245339816713445731951132235437180935494276573175448806949int);
    assert(mod_pow(3, 208179001003162427, 21888242871839275222246405745257275088696311157297823662689037894645226208583nat) == 423140099288106727245339816713445731951132235437180935494276573175448806949nat);
    lemma_fundamental_div_mod_converse(423140099288106727245339816713445731951132235437180935494276573175448806949int * 423140099288106727245339816713445731951132235437180935494276573175448806949int, m, 8180078440919794292693165556654563459198560490998545389249423174264765607int, 10097437335665878417185392413128932569417012677629410563061392144617684083720int);
    lemma_fundamental_div_mod_converse(10097437335665878417185392413128932569417012677629410563061392144617684083720int * 3, m, 1int, 8404069135158360029309771494129522619554726875590408026495138539207826042577int);
    assert(mod_pow(3, 416358002006324855, 21888242871839275222246405745257275088696311157297823662689037894645226208583nat) == 8404069135158360029309771494129522619554726875590408026495138539207826042577nat);
    lemma_fundamental_div_mod_converse(8404069135158360029309771494129522619554726875590408026495138539207826042577int * 8404069135158360029309771494129522619554726875590408026495138539207826042577int, m, 3226772402063832863855665227593087754215662411653508873622505845482346379293int, 18122341276449676850015799427299417395855309633292995429743691867256966729110int);
    lemma_fundamental_div_mod_converse(18122341276449676850015799427299417395855309633292995429743691867256966729110int * 3, m, 2int, 10590538085670480105554586791383702010173306585283338963852999812480447770164int);
    assert(mod_pow(3, 832716004012649711, 21888242871839275222246405745257275088696311157297823662689037894645226208583nat) == 10590538085670480105554586791383702010173306585283338963852999812480447770164nat);
    lemma_fundamental_div_mod_converse(10590538085670480105554586791383702010173306585283338963852999812480447770164int * 10590538085670480105554586791383702010173306585283338963852999812480447770164int, m, 5124189164052900663383623335860856715189003344803078993499044458086150374368int, 1841843605128083049871596650424136196187758034498078684129514764089063786352int);
    assert(mod_pow(3, 1665432008025299422, 21888242871839275222246405745257275088696311157297823662689037894645226208583nat) == 1841843605128083049871596650424136196187758034498078684129514764089063786352nat);
    lemma_fundamental_div_mod_converse(1841843605128083049871596650424136196187758034498078684129514764089063786352int * 1841843605128083049871596650424136196187758034498078684129514764089063786352int, m, 154986760957214772007021604767449009787176855301820353318272016431611444896int, 13099908577789867492851634770757407806769268666629477655911941372078194725536int);
    assert(mod_pow(3, 3330864016050598844, 21888242871839275222246405745257275088696311157297823662689037894645226208583nat) == 13099908577789867492851634770757407806769268666629477655911941372078194725536nat);
    lemma_fundamental_div_mod_converse(13099908577789867492851634770757407806769268666629477655911941372078194725536int * 13099908577789867492851634770757407806769268666629477655911941372078194725536int, m, 7840172724291061989130079141174516315821476091841116043803473628055958662523int, 5262637357343357614870585634965429498000718548313260745162574542559467452387int);
    lemma_fundamental_div_mod_converse(5262637357343357614870585634965429498000718548313260745162574542559467452387int * 3, m, 0int, 15787912072030072844611756904896288494002155644939782235487723627678402357161int);
    assert(mod_pow(3, 6661728032101197689, 21888242871839275222246405745257275088696311157297823662689037894645226208583nat) == 15787912072030072844611756904896288494002155644939782235487723627678402357161nat);
    lemma_fundamental_div_mod_converse(15787912072030072844611756904896288494002155644939782235487723627678402357161int * 15787912072030072844611756904896288494002155644939782235487723627678402357161int, m, 11387765068837052515266450557911872402637914741927983589040088932337381747970int, 6107846469731314021255955004116432179105459988420658089577619471812651153411int);
    lemma_fundamental_div_mod_converse(6107846469731314021255955004116432179105459988420658089577619471812651153411int * 3, m, 0int, 18323539409193942063767865012349296537316379965261974268732858415437953460233int);
    assert(mod_pow(3, 13323456064202395379nat, 21888242871839275222246405745257275088696311157297823662689037894645226208583nat) == 18323539409193942063767865012349296537316379965261974268732858415437953460233nat);
    lemma_fundamental_div_mod_converse(18323539409193942063767865012349296537316379965261974268732858415437953460233int * 18323539409193942063767865012349296537316379965261974268732858415437953460233int, m, 15339380983946023622027478537873671898692077290162326353424049494154679856637int, 5431731837803277498902967258300234053628536696166752980703547798004413498918int);
    assert(mod_pow(3, 26646912128404790758nat, 21888242871839275222246405745257275088696311157297823662689037894645226208583nat) == 5431731837803277498902967258300234053628536696166752980703547798004413498918nat);
    lemma_fundamental_div_mod_converse(5431731837803277498902967258300234053628536696166752980703547798004413498918int * 5431731837803277498902967258300234053628536696166752980703547798004413498918int, m, 1347925044991360028819948589196552291854187647958586923219774904337099007172int, 4442742250735594230176956378561446013862195844111411959084352986016102213448int);
    lemma_fundamental_div_mod_converse(4442742250735594230176956378561446013862195844111411959084352986016102213448int * 3, m, 0int, 13328226752206782690530869135684338041586587532334235877253058958048306640344int);
    assert(mod_pow(3, 53293824256809581517nat, 21888242871839275222246405745257275088696311157297823662689037894645226208583nat) == 13328226752206782690530869135684338041586587532334235877253058958048306640344nat);
    lemma_fundamental_div_mod_converse(13328226752206782690530869135684338041586587532334235877253058958048306640344int * 13328226752206782690530869135684338041586587532334235877253058958048306640344int, m, 8115846913723197669528365057191994812085279434627676319039670540689651274783int, 12355417986647286607018482412461075369128287391315407662685385510656762375847int);
    lemma_fundamental_div_mod_converse(12355417986647286607018482412461075369128287391315407662685385510656762375847int * 3, m, 1int, 15178011088102584598809041492125951018688551016648399325367118637325060918958int);
    assert(mod_pow(3, 106587648513619163035nat, 21888242871839275222246405745257275088696311157297823662689037894645226208583nat) == 15178011088102584598809041492125951018688551016648399325367118637325060918958nat);
    lemma_fundamental_div_mod_converse(15178011088102584598809041492125951018688551016648399325367118637325060918958int * 15178011088102584598809041492125951018688551016648399325367118637325060918958int, m, 10524920704665352529148662844923346334697246748445633807937182982879913666089int, 19431736091577928615917186717326190080043280936505065250424371802846115963877int);
    lemma_fundamental_div_mod_converse(19431736091577928615917186717326190080043280936505065250424371802846115963877int * 3, m, 2int, 14518722531055235403258748661464020062737220494919548425895039619247895474465int);
    assert(mod_pow(3, 213175297027238326071nat, 21888242871839275222246405745257275088696311157297823662689037894645226208583nat) == 14518722531055235403258748661464020062737220494919548425895039619247895474465nat);
    lemma_fundamental_div_mod_converse(14518722531055235403258748661464020062737220494919548425895039619247895474465int * 14518722531055235403258748661464020062737220494919548425895039619247895474465int, m, 9630435168689167608975183589966027710354743266913107370143811157298301063272int, 13512220322235316195668636743692871815247077411484517380991970159957314572649int);
    assert(mod_pow(3, 426350594054476652142nat, 21888242871839275222246405745257275088696311157297823662689037894645226208583nat) == 13512220322235316195668636743692871815247077411484517380991970159957314572649nat);
    lemma_fundamental_div_mod_converse(13512220322235316195668636743692871815247077411484517380991970159957314572649int * 13512220322235316195668636743692871815247077411484517380991970159957314572649int, m, 8341468938629645930574179754574687130653268724905416913307572904511727815974int, 15182431558537442658101165957946428421173688227935666115834601072774335572359int);
    lemma_fundamental_div_mod_converse(15182431558537442658101165957946428421173688227935666115834601072774335572359int * 3, m, 2int, 1770808931933777529810686383324735086128442369211351022125727429032554299911int);
    assert(mod_pow(3, 852701188108953304285nat, 21888242871839275222246405745257275088696311157297823662689037894645226208583nat) == 1770808931933777529810686383324735086128442369211351022125727429032554299911nat);
    lemma_fundamental_div_mod_converse(1770808931933777529810686383324735086128442369211351022125727429032554299911int * 1770808931933777529810686383324735086128442369211351022125727429032554299911int, m, 143262494471441634923030692842072615671707819900579794585840293004230750003int, 9845202326193721245793146203429775151520328336547952896088460795797128732172int);
    lemma_fundamental_div_mod_converse(9845202326193721245793146203429775151520328336547952896088460795797128732172int * 3, m, 1int, 7647364106741888515133032865032050365864673852346035025576344492746159987933int);
    assert(mod_pow(3, 1705402376217906608571nat, 21888242871839275222246405745257275088696311157297823662689037894645226208583nat) == 7647364106741888515133032865032050365864673852346035025576344492746159987933nat);
    lemma_fundamental_div_mod_converse(7647364106741888515133032865032050365864673852346035025576344492746159987933int * 7647364106741888515133032865032050365864673852346035025576344492746159987933int, m, 2671853475105829202857309109138372465664503118948251599610787714033802763268int, 18276531603837687341234458317888057496232666136865106177025302027134366883245int);
    lemma_fundamental_div_mod_converse(18276531603837687341234458317888057496232666136865106177025302027134366883245int * 3, m, 2int, 11053109067834511579210563463149622311305376095999671205697830292112648232569int);
    assert(mod_pow(3, 3410804752435813217143nat, 21888242871839275222246405745257275088696311157297823662689037894645226208583nat) == 11053109067834511579210563463149622311305376095999671205697830292112648232569nat);
    lemma_fundamental_div_mod_converse(11053109067834511579210563463149622311305376095999671205697830292112648232569int * 11053109067834511579210563463149622311305376095999671205697830292112648232569int, m, 5581591029521476769586040607231884280560136228398334754142744914790012436268int, 5329225233963863991038534424160905487856395063407164874132919156298950251517int);
    lemma_fundamental_div_mod_converse(5329225233963863991038534424160905487856395063407164874132919156298950251517int * 3, m, 0int, 15987675701891591973115603272482716463569185190221494622398757468896850754551int);
    assert(mod_pow(3, 6821609504871626434287nat, 21888242871839275222246405745257275088696311157297823662689037894645226208583nat) == 15987675701891591973115603272482716463569185190221494622398757468896850754551nat);
    lemma_fundamental_div_mod_converse(15987675701891591973115603272482716463569185190221494622398757468896850754551int * 15987675701891591973115603272482716463569185190221494622398757468896850754551int, m, 11677765814528180202685730231819227010996662009389018302483673494374369273569int, 21189273615247372835133082500894855671898601217529003816074859991800264368874int);
    assert(mod_pow(3, 13643219009743252868574nat, 21888242871839275222246405745257275088696311157297823662689037894645226208583nat) == 21189273615247372835133082500894855671898601217529003816074859991800264368874nat);
    lemma_fundamental_div_mod_converse(21189273615247372835133082500894855671898601217529003816074859991800264368874int * 21189273615247372835133082500894855671898601217529003816074859991800264368874int, m, 20512624927031893210651485502307540053669126269942832809553047366775681719482int, 11528130699863205438229908562923020542682411910173154142818732142788513313870int);
    lemma_fundamental_div_mod_converse(11528130699863205438229908562923020542682411910173154142818732142788513313870int * 3, m, 1int, 12696149227750341092443319943511786539350924573221638765767158533720313733027int);
    assert(mod_pow(3, 27286438019486505737149nat, 21888242871839275222246405745257275088696311157297823662689037894645226208583nat) == 12696149227750341092443319943511786539350924573221638765767158533720313733027nat);
    lemma_fundamental_div_mod_converse(12696149227750341092443319943511786539350924573221638765767158533720313733027int * 12696149227750341092443319943511786539350924573221638765767158533720313733027int, m, 7364328244945162015271772238256915406403102735739118294994956495467054440091int, 3060465874967041639400022777638325488548760277761630583457642248520387081676int);
    assert(mod_pow(3, 54572876038973011474298nat, 21888242871839275222246405745257275088696311157297823662689037894645226208583nat) == 3060465874967041639400022777638325488548760277761630583457642248520387081676nat);
    lemma_fundamental_div_mod_converse(3060465874967041639400022777638325488548760277761630583457642248520387081676int * 3060465874967041639400022777638325488548760277761630583457642248520387081676int, m, 427921575371788361307175066009838700062265742127429671787757240439261787332int, 14557503660649926293375524215439212060045808225924015896182442727645475898420int);
    assert(mod_pow(3, 109145752077946022948596nat, 21888242871839275222246405745257275088696311157297823662689037894645226208583nat) == 14557503660649926293375524215439212060045808225924015896182442727645475898420nat);
    lemma_fundamental_div_mod_converse(14557503660649926293375524215439212060045808225924015896182442727645475898420int * 14557503660649926293375524215439212060045808225924015896182442727645475898420int, m, 9681951816355564329075122641994958631286939473288067257842976400381888040116int, 5100669149862641836936213785061324918234571362531775026011948989866870980772int);
    lemma_fundamental_div_mod_converse(5100669149862641836936213785061324918234571362531775026011948989866870980772int * 3, m, 0int, 15302007449587925510808641355183974754703714087595325078035846969600612942316int);
    assert(mod_pow(3, 218291504155892045897193nat, 21888242871839275222246405745257275088696311157297823662689037894645226208583nat) == 15302007449587925510808641355183974754703714087595325078035846969600612942316nat);
    lemma_fundamental_div_mod_converse(15302007449587925510808641355183974754703714087595325078035846969600612942316int * 15302007449587925510808641355183974754703714087595325078035846969600612942316int, m, 10697589265536533121407981942135225418939781553298327140508574378248946128278int, 15013672730169461016634994263811694511566054749467347240985767489251640833782int);
    assert(mod_pow(3, 436583008311784091794386nat, 21888242871839275222246405745257275088696311157297823662689037894645226208583nat) == 15013672730169461016634994263811694511566054749467347240985767489251640833782nat);
    lemma_fundamental_div_mod_converse(15013672730169461016634994263811694511566054749467347240985767489251640833782int * 15013672730169461016634994263811694511566054749467347240985767489251640833782int, m, 10298239569455801662332018298878080967820451917755566628531837251370133236480int, 21729362589703296522034937852092243304002970998468639185281972724954807715684int);
    lemma_fundamental_div_mod_converse(21729362589703296522034937852092243304002970998468639185281972724954807715684int * 3, m, 2int, 21411602025431339121612002065762179734616290680810270230467842385573970729886int);
    assert(mod_pow(3, 873166016623568183588773nat, 21888242871839275222246405745257275088696311157297823662689037894645226208583nat) == 21411602025431339121612002065762179734616290680810270230467842385573970729886nat);
    lemma_fundamental_div_mod_converse(21411602025431339121612002065762179734616290680810270230467842385573970729886int * 21411602025431339121612002065762179734616290680810270230467842385573970729886int, m, 20945340563873740401532699710978681506823207212516626010889572497103454954702int, 14750116868522492096542578163449146614472712838020089038050967465370104965730int);
    assert(mod_pow(3, 1746332033247136367177546nat, 21888242871839275222246405745257275088696311157297823662689037894645226208583nat) == 14750116868522492096542578163449146614472712838020089038050967465370104965730nat);
    lemma_fundamental_div_mod_converse(14750116868522492096542578163449146614472712838020089038050967465370104965730int * 14750116868522492096542578163449146614472712838020089038050967465370104965730int, m, 9939854419058245786532679221998991439904876290161280786192505608822131763841int, 1900840767192304322713175876017794351320818308419037152543449301221711185597int);
    lemma_fundamental_div_mod_converse(1900840767192304322713175876017794351320818308419037152543449301221711185597int * 3, m, 0int, 5702522301576912968139527628053383053962454925257111457630347903665133556791int);
    assert(mod_pow(3, 3492664066494272734355093nat, 21888242871839275222246405745257275088696311157297823662689037894645226208583nat) == 5702522301576912968139527628053383053962454925257111457630347903665133556791nat);
    lemma_fundamental_div_mod_converse(5702522301576912968139527628053383053962454925257111457630347903665133556791int * 5702522301576912968139527628053383053962454925257111457630347903665133556791int, m, 1485672504201772506606203279463152213916113028457071790855918365992382149135int, 17569255390531894984167643633585761327082247495946819723683546878621099191976int);
    assert(mod_pow(3, 6985328132988545468710186nat, 21888242871839275222246405745257275088696311157297823662689037894645226208583nat) == 17569255390531894984167643633585761327082247495946819723683546878621099191976nat);
    lemma_fundamental_div_mod_converse(17569255390531894984167643633585761327082247495946819723683546878621099191976int * 17569255390531894984167643633585761327082247495946819723683546878621099191976int, m, 14102490400217113845018225158591275585472437067524940960158229625299895624874int, 2868602911826002700582751142840596210515511582511667620043744390159455691034int);
    lemma_fundamental_div_mod_converse(2868602911826002700582751142840596210515511582511667620043744390159455691034int * 3, m, 0int, 8605808735478008101748253428521788631546534747535002860131233170478367073102int);
    assert(mod_pow(3, 13970656265977090937420373nat, 21888242871839275222246405745257275088696311157297823662689037894645226208583nat) == 8605808735478008101748253428521788631546534747535002860131233170478367073102nat);
    lemma_fundamental_div_mod_converse(8605808735478008101748253428521788631546534747535002860131233170478367073102int * 8605808735478008101748253428521788631546534747535002860131233170478367073102int, m, 3383549078163454919547845741078081967725416698695902787266223445293379117028int, 7469515218590127960888653227981441209735829534495257982326060483769516851080int);
    assert(mod_pow(3, 27941312531954181874840746nat, 21888242871839275222246405745257275088696311157297823662689037894645226208583nat) == 7469515218590127960888653227981441209735829534495257982326060483769516851080nat);
    lemma_fundamental_div_mod_converse(7469515218590127960888653227981441209735829534495257982326060483769516851080int * 7469515218590127960888653227981441209735829534495257982326060483769516851080int, m, 2549024054942842943154533233967555883459896787513041434309259955533044230420int, 10708718595116334187116532967960676810806052640735304417143090330139263471540int);
    lemma_fundamental_div_mod_converse(10708718595116334187116532967960676810806052640735304417143090330139263471540int * 3, m, 1int, 10237912913509727339103193158624755343721846764908089588740233095772564206037int);
    assert(mod_pow(3, 55882625063908363749681493nat, 21888242871839275222246405745257275088696311157297823662689037894645226208583nat) == 10237912913509727339103193158624755343721846764908089588740233095772564206037nat);
    lemma_fundamental_div_mod_converse(10237912913509727339103193158624755343721846764908089588740233095772564206037int * 10237912913509727339103193158624755343721846764908089588740233095772564206037int, m, 4788637509110461157116200522823782088918436097718259231877357853952422309978int, 20070898737305974950226705395780864512849373579557892299732646811612477104195int);
    lemma_fundamental_div_mod_converse(20070898737305974950226705395780864512849373579557892299732646811612477104195int * 3, m, 2int, 16436210468239374406187304696828043361155498424078029573819864645546978895419int);
    assert(mod_pow(3, 111765250127816727499362987nat, 21888242871839275222246405745257275088696311157297823662689037894645226208583nat) == 16436210468239374406187304696828043361155498424078029573819864645546978895419nat);
    lemma_fundamental_div_mod_converse(16436210468239374406187304696828043361155498424078029573819864645546978895419int * 16436210468239374406187304696828043361155498424078029573819864645546978895419int, m, 12342197413380624525894013010951207930195819539678898949381676157691979494975int, 3020679421920113166926853645651570795183128088006303543686290402890988815136int);
    assert(mod_pow(3, 223530500255633454998725974nat, 21888242871839275222246405745257275088696311157297823662689037894645226208583nat) == 3020679421920113166926853645651570795183128088006303543686290402890988815136nat);
    lemma_fundamental_div_mod_converse(3020679421920113166926853645651570795183128088006303543686290402890988815136int * 3020679421920113166926853645651570795183128088006303543686290402890988815136int, m, 416867823673088400789801832493783119522386127041673344063773091687100219918int, 4212228040605838923631435311380901764231296250557678798120035482216543542302int);
    lemma_fundamental_div_mod_converse(4212228040605838923631435311380901764231296250557678798120035482216543542302int * 3, m, 0int, 12636684121817516770894305934142705292693888751673036394360106446649630626906int);
    assert(mod_pow(3, 447061000511266909997451949nat, 21888242871839275222246405745257275088696311157297823662689037894645226208583nat) == 12636684121817516770894305934142705292693888751673036394360106446649630626906nat);
    lemma_fundamental_div_mod_converse(12636684121817516770894305934142705292693888751673036394360106446649630626906int * 12636684121817516770894305934142705292693888751673036394360106446649630626906int, m, 7295505012878016527259499206592391311850921157560197301041972321793140414517int, 5109400892733257431125083835088795568485242604142550227668902692529647933425int);
    lemma_fundamental_div_mod_converse(5109400892733257431125083835088795568485242604142550227668902692529647933425int * 3, m, 0int, 15328202678199772293375251505266386705455727812427650683006708077588943800275int);
    assert(mod_pow(3, 894122001022533819994903899nat, 21888242871839275222246405745257275088696311157297823662689037894645226208583nat) == 15328202678199772293375251505266386705455727812427650683006708077588943800275nat);
    lemma_fundamental_div_mod_converse(15328202678199772293375251505266386705455727812427650683006708077588943800275int * 15328202678199772293375251505266386705455727812427650683006708077588943800275int, m, 10734246632755287872385557914755567132999734953736817890495079376494473632131int, 12770685068209746940042001100047350072534241884833328961449639006208873295252int);
    assert(mod_pow(3, 1788244002045067639989807798nat, 21888242871839275222246405745257275088696311157297823662689037894645226208583nat) == 12770685068209746940042001100047350072534241884833328961449639006208873295252nat);
    lemma_fundamental_div_mod_converse(12770685068209746940042001100047350072534241884833328961449639006208873295252int * 12770685068209746940042001100047350072534241884833328961449639006208873295252int, m, 7451050231228124927350045475245353551442924805479059661812495736582356474485int, 19754868798239240792242178529936801295147734890945243327440755739710038238749int);
    assert(mod_pow(3, 3576488004090135279979615596nat, 21888242871839275222246405745257275088696311157297823662689037894645226208583nat) == 19754868798239240792242178529936801295147734890945243327440755739710038238749nat);
    lemma_fundamental_div_mod_converse(19754868798239240792242178529936801295147734890945243327440755739710038238749int * 19754868798239240792242178529936801295147734890945243327440755739710038238749int, m, 17829427584510948061532418988965794817519711020463796107734095578809144304546int, 9143084477545232180636866685314565507255253477473254194264637591038053966683int);
    lemma_fundamental_div_mod_converse(9143084477545232180636866685314565507255253477473254194264637591038053966683int * 3, m, 1int, 5541010560796421319664194310686421433069449275121938920104874878468935691466int);
    assert(mod_pow(3, 7152976008180270559959231193nat, 21888242871839275222246405745257275088696311157297823662689037894645226208583nat) == 5541010560796421319664194310686421433069449275121938920104874878468935691466nat);
    lemma_fundamental_div_mod_converse(5541010560796421319664194310686421433069449275121938920104874878468935691466int * 5541010560796421319664194310686421433069449275121938920104874878468935691466int, m, 1402707298828391824527114895217749260317812135485008365827415143109064399628int, 11848371193115647630161996284221662751899022090028068051111980162339949622032int);
    assert(mod_pow(3, 14305952016360541119918462386nat, 21888242871839275222246405745257275088696311157297823662689037894645226208583nat) == 11848371193115647630161996284221662751899022090028068051111980162339949622032nat);
    lemma_fundamental_div_mod_converse(11848371193115647630161996284221662751899022090028068051111980162339949622032int * 11848371193115647630161996284221662751899022090028068051111980162339949622032int, m, 6413666951332408010748067025825806628018544752429651921008026275453767161022int, 621370964293676212422397008073150468053662776276548089495253009002940357198int);
    assert(mod_pow(3, 28611904032721082239836924772nat, 21888242871839275222246405745257275088696311157297823662689037894645226208583nat) == 621370964293676212422397008073150468053662776276548089495253009002940357198nat);
    lemma_fundamental_div_mod_converse(621370964293676212422397008073150468053662776276548089495253009002940357198int * 621370964293676212422397008073150468053662776276548089495253009002940357198int, m, 17639692575049026264686241344602488594101921824145266922145505405870218169int, 8405047639461137838037685623476406956667977498577700208324995717512920066677int);
    assert(mod_pow(3, 57223808065442164479673849544nat, 21888242871839275222246405745257275088696311157297823662689037894645226208583nat) == 8405047639461137838037685623476406956667977498577700208324995717512920066677nat);
    lemma_fundamental_div_mod_converse(8405047639461137838037685623476406956667977498577700208324995717512920066677int * 8405047639461137838037685623476406956667977498577700208324995717512920066677int, m, 3227523846260891780541541476996241148564608806065719871497373539491575681191int, 19046112529627621871029990236297165918749124002229701081727389620463649959976int);
    lemma_fundamental_div_mod_converse(19046112529627621871029990236297165918749124002229701081727389620463649959976int * 3, m, 2int, 13361851845204315168597159218376947578854749692093455919804093072100497462762int);
    assert(mod_pow(3, 114447616130884328959347699089nat, 21888242871839275222246405745257275088696311157297823662689037894645226208583nat) == 13361851845204315168597159218376947578854749692093455919804093072100497462762nat);
    lemma_fundamental_div_mod_converse(13361851845204315168597159218376947578854749692093455919804093072100497462762int * 13361851845204315168597159218376947578854749692093455919804093072100497462762int, m, 8156848668875688165357422790687024329795186226634967505838262235983027981070int, 1257794157073912597565770220316459456807577701561229790922263007802381144834int);
    assert(mod_pow(3, 228895232261768657918695398178nat, 21888242871839275222246405745257275088696311157297823662689037894645226208583nat) == 1257794157073912597565770220316459456807577701561229790922263007802381144834nat);
    lemma_fundamental_div_mod_converse(1257794157073912597565770220316459456807577701561229790922263007802381144834int * 1257794157073912597565770220316459456807577701561229790922263007802381144834int, m, 72278352850547227695144132795143465857869024161707052602240453821699390387int, 2720983350229615818782138989463888757607712965178465515207497929754077795935int);
    assert(mod_pow(3, 457790464523537315837390796356nat, 21888242871839275222246405745257275088696311157297823662689037894645226208583nat) == 2720983350229615818782138989463888757607712965178465515207497929754077795935nat);
    lemma_fundamental_div_mod_converse(2720983350229615818782138989463888757607712965178465515207497929754077795935int * 2720983350229615818782138989463888757607712965178465515207497929754077795935int, m, 338252386707213328080275974442861901012985570683435470952075929236656327371int, 15776469458334201110799815849905904910231791252471829411434799424419924498932int);
    lemma_fundamental_div_mod_converse(15776469458334201110799815849905904910231791252471829411434799424419924498932int * 3, m, 2int, 3552922631324052887906636059203164553302751442819840908926322483969321079630int);
    assert(mod_pow(3, 915580929047074631674781592713nat, 21888242871839275222246405745257275088696311157297823662689037894645226208583nat) == 3552922631324052887906636059203164553302751442819840908926322483969321079630nat);
    lemma_fundamental_div_mod_converse(3552922631324052887906636059203164553302751442819840908926322483969321079630int * 3552922631324052887906636059203164553302751442819840908926322483969321079630int, m, 576714142751738198626423070638111125810103127116628169306756782057627316760int, 13523476974700209231610230259210169622882495917215538565442179545202429185820int);
    lemma_fundamental_div_mod_converse(13523476974700209231610230259210169622882495917215538565442179545202429185820int * 3, m, 1int, 18682188052261352472584285032373233779951176594348792033637500740962061348877int);
    assert(mod_pow(3, 1831161858094149263349563185427nat, 21888242871839275222246405745257275088696311157297823662689037894645226208583nat) == 18682188052261352472584285032373233779951176594348792033637500740962061348877nat);
    lemma_fundamental_div_mod_converse(18682188052261352472584285032373233779951176594348792033637500740962061348877int * 18682188052261352472584285032373233779951176594348792033637500740962061348877int, m, 15945736369231370328860813495703918271850487551826374553279426265943740241544int, 18318224794456467857106657504732560315347123043727587279619738193392963188977int);
    lemma_fundamental_div_mod_converse(18318224794456467857106657504732560315347123043727587279619738193392963188977int * 3, m, 2int, 11178188639690853126827161023683130768648746816587114513481138790888437149765int);
    assert(mod_pow(3, 3662323716188298526699126370855nat, 21888242871839275222246405745257275088696311157297823662689037894645226208583nat) == 11178188639690853126827161023683130768648746816587114513481138790888437149765nat);
    lemma_fundamental_div_mod_converse(11178188639690853126827161023683130768648746816587114513481138790888437149765int * 11178188639690853126827161023683130768648746816587114513481138790888437149765int, m, 5708630975822770645350214464455348750263100932427653087956032271189922245188int, 16709589434266541992697140670691309049937937911783470489323191529332883506621int);
    lemma_fundamental_div_mod_converse(16709589434266541992697140670691309049937937911783470489323191529332883506621int * 3, m, 2int, 6352282559121075533598610521559376972421191420754764142591498798708198102697int);
    assert(mod_pow(3, 7324647432376597053398252741711nat, 21888242871839275222246405745257275088696311157297823662689037894645226208583nat) == 6352282559121075533598610521559376972421191420754764142591498798708198102697nat);
    lemma_fundamental_div_mod_converse(6352282559121075533598610521559376972421191420754764142591498798708198102697int * 6352282559121075533598610521559376972421191420754764142591498798708198102697int, m, 1843523664607576290287992189280235264232353965700706755611198018629364827004int, 10283000178773156511877483542260715170623299489313505408679309862343943698477int);
    assert(mod_pow(3, 14649294864753194106796505483422nat, 21888242871839275222246405745257275088696311157297823662689037894645226208583nat) == 10283000178773156511877483542260715170623299489313505408679309862343943698477nat);
    lemma_fundamental_div_mod_converse(10283000178773156511877483542260715170623299489313505408679309862343943698477int * 10283000178773156511877483542260715170623299489313505408679309862343943698477int, m, 4830908232140033768310999377304921431546780865671015368144251661476664555302int, 170370358277947958695139072307357844373667590702976632534943935626301562463int);
    lemma_fundamental_div_mod_converse(170370358277947958695139072307357844373667590702976632534943935626301562463int * 3, m, 0int, 511111074833843876085417216922073533121002772108929897604831806878904687389int);
    assert(mod_pow(3, 29298589729506388213593010966845nat, 21888242871839275222246405745257275088696311157297823662689037894645226208583nat) == 511111074833843876085417216922073533121002772108929897604831806878904687389nat);
    lemma_fundamental_div_mod_converse(511111074833843876085417216922073533121002772108929897604831806878904687389int * 511111074833843876085417216922073533121002772108929897604831806878904687389int, m, 11934924714943805971045689478843095095493690708409758401269265830094229249int, 5293974084301161998109888071255214187623527454653614081462223176395922193154int);
    assert(mod_pow(3, 58597179459012776427186021933690nat, 21888242871839275222246405745257275088696311157297823662689037894645226208583nat) == 5293974084301161998109888071255214187623527454653614081462223176395922193154nat);
    lemma_fundamental_div_mod_converse(5293974084301161998109888071255214187623527454653614081462223176395922193154int * 5293974084301161998109888071255214187623527454653614081462223176395922193154int, m, 1280420807158984179235454753387818594952975934550759548792928091583215584467int, 18826590133840596359807581434861163823983324712333169323496279336712487587455int);
    assert(mod_pow(3, 117194358918025552854372043867380nat, 21888242871839275222246405745257275088696311157297823662689037894645226208583nat) == 18826590133840596359807581434861163823983324712333169323496279336712487587455nat);
    lemma_fundamental_div_mod_converse(18826590133840596359807581434861163823983324712333169323496279336712487587455int * 18826590133840596359807581434861163823983324712333169323496279336712487587455int, m, 16193190935560938843858987860055972005951694718833978870283684970662899291140int, 18560563417549288225577375602503828891753279029347430614456669072825789522405int);
    lemma_fundamental_div_mod_converse(18560563417549288225577375602503828891753279029347430614456669072825789522405int * 3, m, 2int, 11905204508969314232239315316996936497867214773446644517991931429186916150049int);
    assert(mod_pow(3, 234388717836051105708744087734761nat, 21888242871839275222246405745257275088696311157297823662689037894645226208583nat) == 11905204508969314232239315316996936497867214773446644517991931429186916150049nat);
    lemma_fundamental_div_mod_converse(11905204508969314232239315316996936497867214773446644517991931429186916150049int * 11905204508969314232239315316996936497867214773446644517991931429186916150049int, m, 6475343645913837179390163502258753558667203132316036280842376480978889797315int, 1564644596043651793425226082893400608191783865853185151990492199001499347756int);
    assert(mod_pow(3, 468777435672102211417488175469522nat, 21888242871839275222246405745257275088696311157297823662689037894645226208583nat) == 1564644596043651793425226082893400608191783865853185151990492199001499347756nat);
    lemma_fundamental_div_mod_converse(1564644596043651793425226082893400608191783865853185151990492199001499347756int * 1564644596043651793425226082893400608191783865853185151990492199001499347756int, m, 111846013691590891036604563426145531757029618210948720613866425092886935548int, 19565093139608010449185569547028970835472901068740052798623291994163896827052int);
    lemma_fundamental_div_mod_converse(19565093139608010449185569547028970835472901068740052798623291994163896827052int * 3, m, 2int, 14918793675145480903063897150572362329026080891624511070491800193201238063990int);
    assert(mod_pow(3, 937554871344204422834976350939045nat, 21888242871839275222246405745257275088696311157297823662689037894645226208583nat) == 14918793675145480903063897150572362329026080891624511070491800193201238063990nat);
    lemma_fundamental_div_mod_converse(14918793675145480903063897150572362329026080891624511070491800193201238063990int * 14918793675145480903063897150572362329026080891624511070491800193201238063990int, m, 10168491186102146484987281901220525675705348449909030119156663124756561474196int, 20862526943879780109678584749425121772059465413923753056964590466993066495832int);
    lemma_fundamental_div_mod_converse(20862526943879780109678584749425121772059465413923753056964590466993066495832int * 3, m, 2int, 18811095087960789884542942757760815138785773927175611845515695611688747070330int);
    assert(mod_pow(3, 1875109742688408845669952701878091nat, 21888242871839275222246405745257275088696311157297823662689037894645226208583nat) == 18811095087960789884542942757760815138785773927175611845515695611688747070330nat);
    lemma_fundamental_div_mod_converse(18811095087960789884542942757760815138785773927175611845515695611688747070330int * 18811095087960789884542942757760815138785773927175611845515695611688747070330int, m, 16166546601306413077569185631825561944237106344214276891536574303663481755444int, 10228159461996648350654211799525734482627373432606093255542715034032626533048int);
    assert(mod_pow(3, 3750219485376817691339905403756182nat, 21888242871839275222246405745257275088696311157297823662689037894645226208583nat) == 10228159461996648350654211799525734482627373432606093255542715034032626533048nat);
    lemma_fundamental_div_mod_converse(10228159461996648350654211799525734482627373432606093255542715034032626533048int * 10228159461996648350654211799525734482627373432606093255542715034032626533048int, m, 4779517780051054340705380754215693869331234191395652658987701553944214989566int, 16578723136214964235020827475247444213390936038385265403207476714825151525326int);
    assert(mod_pow(3, 7500438970753635382679810807512364nat, 21888242871839275222246405745257275088696311157297823662689037894645226208583nat) == 16578723136214964235020827475247444213390936038385265403207476714825151525326nat);
    lemma_fundamental_div_mod_converse(16578723136214964235020827475247444213390936038385265403207476714825151525326int * 16578723136214964235020827475247444213390936038385265403207476714825151525326int, m, 12557155110010586030810227720507502388033311649689852104532913087596513937007int, 13642970607463378337310141078318167891164462779432999313216762354879314675195int);
    lemma_fundamental_div_mod_converse(13642970607463378337310141078318167891164462779432999313216762354879314675195int * 3, m, 1int, 19040668950550859789684017489697228584797077181001174276961249169992717817002int);
    assert(mod_pow(3, 15000877941507270765359621615024729nat, 21888242871839275222246405745257275088696311157297823662689037894645226208583nat) == 19040668950550859789684017489697228584797077181001174276961249169992717817002nat);
    lemma_fundamental_div_mod_converse(19040668950550859789684017489697228584797077181001174276961249169992717817002int * 19040668950550859789684017489697228584797077181001174276961249169992717817002int, m, 16563553146192161536109212120665652829171007490703303830072943295700141454666int, 21730758936306678419431954176966429627250211161097067045513776214286805669726int);
    assert(mod_pow(3, 30001755883014541530719243230049458nat, 21888242871839275222246405745257275088696311157297823662689037894645226208583nat) == 21730758936306678419431954176966429627250211161097067045513776214286805669726nat);
    lemma_fundamental_div_mod_converse(21730758936306678419431954176966429627250211161097067045513776214286805669726int * 21730758936306678419431954176966429627250211161097067045513776214286805669726int, m, 21574408083502377890079312312996703853710144938976612512826928155545359958191int, 19997826390180618063946775956378497014758338448054146138454304659417067561723int);
    lemma_fundamental_div_mod_converse(19997826390180618063946775956378497014758338448054146138454304659417067561723int * 3, m, 2int, 16216993426863303747347516378620940866882393029566791089984838188960750268003int);
    assert(mod_pow(3, 60003511766029083061438486460098917nat, 21888242871839275222246405745257275088696311157297823662689037894645226208583nat) == 16216993426863303747347516378620940866882393029566791089984838188960750268003nat);
    lemma_fundamental_div_mod_converse(16216993426863303747347516378620940866882393029566791089984838188960750268003int * 16216993426863303747347516378620940866882393029566791089984838188960750268003int, m, 12015166194326333441086305956108366095604813358009493075232559443960199965262int, 14695303178383336742801904570182732685569289735568557229606754031307759364263int);
    assert(mod_pow(3, 120007023532058166122876972920197834nat, 21888242871839275222246405745257275088696311157297823662689037894645226208583nat) == 14695303178383336742801904570182732685569289735568557229606754031307759364263nat);
    lemma_fundamental_div_mod_converse(14695303178383336742801904570182732685569289735568557229606754031307759364263int * 14695303178383336742801904570182732685569289735568557229606754031307759364263int, m, 9866115647978320195899986121597912117442728234825849163123845537783134353813int, 4970213581569079288470464588752589138338181733741245338766170782706262156190int);
    lemma_fundamental_div_mod_converse(4970213581569079288470464588752589138338181733741245338766170782706262156190int * 3, m, 0int, 14910640744707237865411393766257767415014545201223736016298512348118786468570int);
    assert(mod_pow(3, 240014047064116332245753945840395669nat, 21888242871839275222246405745257275088696311157297823662689037894645226208583nat) == 14910640744707237865411393766257767415014545201223736016298512348118786468570nat);
    lemma_fundamental_div_mod_converse(14910640744707237865411393766257767415014545201223736016298512348118786468570int * 14910640744707237865411393766257767415014545201223736016298512348118786468570int, m, 10157380321458457713637104063312825187347031831056894936919674344042848114419int, 2782740483312887075038109396653889167273095361086074816064815285829653986623int);
    assert(mod_pow(3, 480028094128232664491507891680791338nat, 21888242871839275222246405745257275088696311157297823662689037894645226208583nat) == 2782740483312887075038109396653889167273095361086074816064815285829653986623nat);
    lemma_fundamental_div_mod_converse(2782740483312887075038109396653889167273095361086074816064815285829653986623int * 2782740483312887075038109396653889167273095361086074816064815285829653986623int, m, 353781006671447798589678459192356289437560928952002145252742764253863934341int, 20630136273191317312106931828528296262715532681967388128853077512629980295326int);
    lemma_fundamental_div_mod_converse(20630136273191317312106931828528296262715532681967388128853077512629980295326int * 3, m, 2int, 18113923075895401491827983995070338610753975731306517061181156748599488468812int);
    assert(mod_pow(3, 960056188256465328983015783361582677nat, 21888242871839275222246405745257275088696311157297823662689037894645226208583nat) == 18113923075895401491827983995070338610753975731306517061181156748599488468812nat);
    lemma_fundamental_div_mod_converse(18113923075895401491827983995070338610753975731306517061181156748599488468812int * 18113923075895401491827983995070338610753975731306517061181156748599488468812int, m, 14990431672411554960436260352791303395562383100691858262869469771396836479653int, 4089499380098521936903252856012010415743550419955928059963598521626283229645int);
    assert(mod_pow(3, 1920112376512930657966031566723165354nat, 21888242871839275222246405745257275088696311157297823662689037894645226208583nat) == 4089499380098521936903252856012010415743550419955928059963598521626283229645nat);
    lemma_fundamental_div_mod_converse(4089499380098521936903252856012010415743550419955928059963598521626283229645int * 4089499380098521936903252856012010415743550419955928059963598521626283229645int, m, 764063395940419420583464655345931541559190462002117032644599368210189738635int, 21663531680084639328112741051883938642837311779851286847552655448059043121820int);
    lemma_fundamental_div_mod_converse(21663531680084639328112741051883938642837311779851286847552655448059043121820int * 3, m, 2int, 21214109296575367539845411665137265751119313024958213217279890554886676948294int);
    assert(mod_pow(3, 3840224753025861315932063133446330709nat, 21888242871839275222246405745257275088696311157297823662689037894645226208583nat) == 21214109296575367539845411665137265751119313024958213217279890554886676948294nat);
    lemma_fundamental_div_mod_converse(21214109296575367539845411665137265751119313024958213217279890554886676948294int * 21214109296575367539845411665137265751119313024958213217279890554886676948294int, m, 20560738286856763979498222075940098159803710194218949187775015852018074226989int, 21198990158688767829066060845728956257621072319611184107746096552779747463849int);
    lemma_fundamental_div_mod_converse(21198990158688767829066060845728956257621072319611184107746096552779747463849int * 3, m, 2int, 19820484732387753042705371046672318595470594644237904997860213869048789974381int);
    assert(mod_pow(3, 7680449506051722631864126266892661419nat, 21888242871839275222246405745257275088696311157297823662689037894645226208583nat) == 19820484732387753042705371046672318595470594644237904997860213869048789974381nat);
    lemma_fundamental_div_mod_converse(19820484732387753042705371046672318595470594644237904997860213869048789974381int * 19820484732387753042705371046672318595470594644237904997860213869048789974381int, m, 17948065421562301329328680929041431126391800015123997666057808903337787300442int, 4524695030454061422712432462828797654434604761702372456279659009420256239475int);
    lemma_fundamental_div_mod_converse(4524695030454061422712432462828797654434604761702372456279659009420256239475int * 3, m, 0int, 13574085091362184268137297388486392963303814285107117368838977028260768718425int);
    assert(mod_pow(3, 15360899012103445263728252533785322839nat, 21888242871839275222246405745257275088696311157297823662689037894645226208583nat) == 13574085091362184268137297388486392963303814285107117368838977028260768718425nat);
    lemma_fundamental_div_mod_converse(13574085091362184268137297388486392963303814285107117368838977028260768718425int * 13574085091362184268137297388486392963303814285107117368838977028260768718425int, m, 8418025473602488985719552378983598210460988913223979035033612923350289458964int, 11492849445234484284372208739291234971854353199167847866498766870084851392613int);
    assert(mod_pow(3, 30721798024206890527456505067570645678nat, 21888242871839275222246405745257275088696311157297823662689037894645226208583nat) == 11492849445234484284372208739291234971854353199167847866498766870084851392613nat);
    lemma_fundamental_div_mod_converse(11492849445234484284372208739291234971854353199167847866498766870084851392613int * 11492849445234484284372208739291234971854353199167847866498766870084851392613int, m, 6034545081769160940128255138742542041953696608119109811740053398964954269516int, 21335312719094317800286669976596448725965810632465940898921282334578456511941int);
    lemma_fundamental_div_mod_converse(21335312719094317800286669976596448725965810632465940898921282334578456511941int * 3, m, 2int, 20229452413604402956367198439274796000504809582802175371385771214444917118657int);
    assert(mod_pow(3, 61443596048413781054913010135141291357nat, 21888242871839275222246405745257275088696311157297823662689037894645226208583nat) == 20229452413604402956367198439274796000504809582802175371385771214444917118657nat);
    lemma_fundamental_div_mod_converse(20229452413604402956367198439274796000504809582802175371385771214444917118657int * 20229452413604402956367198439274796000504809582802175371385771214444917118657int, m, 18696372630294065689558619196211398730207845031800777011889638482183418213545int, 742505116296822825851978931498921337475203927701964025306317923339611626914int);
    assert(mod_pow(3, 122887192096827562109826020270282582714nat, 21888242871839275222246405745257275088696311157297823662689037894645226208583nat) == 742505116296822825851978931498921337475203927701964025306317923339611626914nat);
    lemma_fundamental_div_mod_converse(742505116296822825851978931498921337475203927701964025306317923339611626914int * 742505116296822825851978931498921337475203927701964025306317923339611626914int, m, 25187670429053098835757790563879451554677175699564919187782183277973415715int, 13239067986173281474992307581911624708303213397119769966095902371518369081551int);
    assert(mod_pow(3, 245774384193655124219652040540565165428nat, 21888242871839275222246405745257275088696311157297823662689037894645226208583nat) == 13239067986173281474992307581911624708303213397119769966095902371518369081551nat);
    lemma_fundamental_div_mod_converse(13239067986173281474992307581911624708303213397119769966095902371518369081551int * 13239067986173281474992307581911624708303213397119769966095902371518369081551int, m, 8007628669362897728656093363652580746530771516626944829828091754610990878257int, 9914435643175287118214658146207494795226024737764652113465696353465847085770int);
    lemma_fundamental_div_mod_converse(9914435643175287118214658146207494795226024737764652113465696353465847085770int * 3, m, 1int, 7855064057686586132397568693365209296981763055996132677708051165752315048727int);
    assert(mod_pow(3, 491548768387310248439304081081130330857nat, 21888242871839275222246405745257275088696311157297823662689037894645226208583nat) == 7855064057686586132397568693365209296981763055996132677708051165752315048727nat);
    lemma_fundamental_div_mod_converse(7855064057686586132397568693365209296981763055996132677708051165752315048727int * 7855064057686586132397568693365209296981763055996132677708051165752315048727int, m, 2818957725918856101074062327575536080518465685837264057040164095501245677051int, 15226902647803594467563760959858353596629731816399118574086720699872801991796int);
    lemma_fundamental_div_mod_converse(15226902647803594467563760959858353596629731816399118574086720699872801991796int * 3, m, 2int, 1904222199732232958198471389060510612496573134601708396882086310327953558222int);
    assert(mod_pow(3, 983097536774620496878608162162260661715nat, 21888242871839275222246405745257275088696311157297823662689037894645226208583nat) == 1904222199732232958198471389060510612496573134601708396882086310327953558222nat);
    lemma_fundamental_div_mod_converse(1904222199732232958198471389060510612496573134601708396882086310327953558222int * 1904222199732232958198471389060510612496573134601708396882086310327953558222int, m, 165662552594308136940793121766994436532078231731111632133941090925988868718int, 13918412989495869021502795513703915249668412408237526965841955675494271994690int);
    lemma_fundamental_div_mod_converse(13918412989495869021502795513703915249668412408237526965841955675494271994690int * 3, m, 1int, 19866996096648331842261980795854470660308926067414757234836829131837589775487int);
    assert(mod_pow(3, 1966195073549240993757216324324521323431nat, 21888242871839275222246405745257275088696311157297823662689037894645226208583nat) == 19866996096648331842261980795854470660308926067414757234836829131837589775487nat);
    lemma_fundamental_div_mod_converse(19866996096648331842261980795854470660308926067414757234836829131837589775487int * 19866996096648331842261980795854470660308926067414757234836829131837589775487int, m, 18032399229818739144574471614848670400050918532936048426787246664752958940696int, 2192241633914574326638598893084939004695512277749026934292761734411042893401int);
    assert(mod_pow(3, 3932390147098481987514432648649042646862nat, 21888242871839275222246405745257275088696311157297823662689037894645226208583nat) == 2192241633914574326638598893084939004695512277749026934292761734411042893401nat);
    lemma_fundamental_div_mod_converse(2192241633914574326638598893084939004695512277749026934292761734411042893401int * 2192241633914574326638598893084939004695512277749026934292761734411042893401int, m, 219566431604776844437895936885520253365803969999317149961917306383721331841int, 6070231404137596434188291347770576528282432627548671125925814535278223955498int);
    assert(mod_pow(3, 7864780294196963975028865297298085293724nat, 21888242871839275222246405745257275088696311157297823662689037894645226208583nat) == 6070231404137596434188291347770576528282432627548671125925814535278223955498nat);
    lemma_fundamental_div_mod_converse(6070231404137596434188291347770576528282432627548671125925814535278223955498int * 6070231404137596434188291347770576528282432627548671125925814535278223955498int, m, 1683447571170064059244026107139143979198381235327490024206102981095217786510int, 6718542597523337733519180947566278044303540905337181777978589030440260812674int);
    assert(mod_pow(3, 15729560588393927950057730594596170587448nat, 21888242871839275222246405745257275088696311157297823662689037894645226208583nat) == 6718542597523337733519180947566278044303540905337181777978589030440260812674nat);
    lemma_fundamental_div_mod_converse(6718542597523337733519180947566278044303540905337181777978589030440260812674int * 6718542597523337733519180947566278044303540905337181777978589030440260812674int, m, 2062240212658176283948718994527505612231565476637193065655559671895334807792int, 15098438979727075222956224132086441661498676132689169651315505931349713351540int);
    lemma_fundamental_div_mod_converse(15098438979727075222956224132086441661498676132689169651315505931349713351540int * 3, m, 2int, 1518831195502675224375860905744774807103406083471861628568442004758687637454int);
    assert(mod_pow(3, 31459121176787855900115461189192341174897nat, 21888242871839275222246405745257275088696311157297823662689037894645226208583nat) == 1518831195502675224375860905744774807103406083471861628568442004758687637454nat);
    lemma_fundamental_div_mod_converse(1518831195502675224375860905744774807103406083471861628568442004758687637454int * 1518831195502675224375860905744774807103406083471861628568442004758687637454int, m, 105392114567588428069179516367351124209064593784031062377964795758877986497int, 8516587188633497193253537308367343621188525280115979964159248049971764098365int);
    lemma_fundamental_div_mod_converse(8516587188633497193253537308367343621188525280115979964159248049971764098365int * 3, m, 1int, 3661518694061216357514206179844755774869264683050116229788706255270066086512int);
    assert(mod_pow(3, 62918242353575711800230922378384682349795nat, 21888242871839275222246405745257275088696311157297823662689037894645226208583nat) == 3661518694061216357514206179844755774869264683050116229788706255270066086512nat);
    lemma_fundamental_div_mod_converse(3661518694061216357514206179844755774869264683050116229788706255270066086512int * 3661518694061216357514206179844755774869264683050116229788706255270066086512int, m, 612507784451186735185534057944492290746914732670041720810316036502902236469int, 13624660929326176986948158736825966826571084708225416830445559605102884912717int);
    assert(mod_pow(3, 125836484707151423600461844756769364699590nat, 21888242871839275222246405745257275088696311157297823662689037894645226208583nat) == 13624660929326176986948158736825966826571084708225416830445559605102884912717nat);
    lemma_fundamental_div_mod_converse(13624660929326176986948158736825966826571084708225416830445559605102884912717int * 13624660929326176986948158736825966826571084708225416830445559605102884912717int, m, 8480871969761206650212191189029995340275746368061524613944297573466560631182int, 4171634673309546488478900034926436363672884168248659673965471936131442486983int);
    lemma_fundamental_div_mod_converse(4171634673309546488478900034926436363672884168248659673965471936131442486983int * 3, m, 0int, 12514904019928639465436700104779309091018652504745979021896415808394327460949int);
    assert(mod_pow(3, 251672969414302847200923689513538729399181nat, 21888242871839275222246405745257275088696311157297823662689037894645226208583nat) == 12514904019928639465436700104779309091018652504745979021896415808394327460949nat);
    lemma_fundamental_div_mod_converse(12514904019928639465436700104779309091018652504745979021896415808394327460949int * 12514904019928639465436700104779309091018652504745979021896415808394327460949int, m, 7155568564598303909275974273357043682714996460562144844961279567859840082380int, 4472673957063457847520707085135785674089418794544764949455722419743336913061int);
    assert(mod_pow(3, 503345938828605694401847379027077458798362nat, 21888242871839275222246405745257275088696311157297823662689037894645226208583nat) == 4472673957063457847520707085135785674089418794544764949455722419743336913061nat);
    lemma_fundamental_div_mod_converse(4472673957063457847520707085135785674089418794544764949455722419743336913061int * 4472673957063457847520707085135785674089418794544764949455722419743336913061int, m, 913952410128418880738083124354078265354042862250509088826074135948343696351int, 13455636344065127972912110192814990785359494136291275900556962307913130409088int);
    lemma_fundamental_div_mod_converse(13455636344065127972912110192814990785359494136291275900556962307913130409088int * 3, m, 1int, 18478666160356108696489924833187697267382171251576004038981849029094165018681int);
    assert(mod_pow(3, 1006691877657211388803694758054154917596725nat, 21888242871839275222246405745257275088696311157297823662689037894645226208583nat) == 18478666160356108696489924833187697267382171251576004038981849029094165018681nat);
    lemma_fundamental_div_mod_converse(18478666160356108696489924833187697267382171251576004038981849029094165018681int * 18478666160356108696489924833187697267382171251576004038981849029094165018681int, m, 15600206241552769294373479655286439929120216996576104291341719425516600817752int, 8921042342442788163393498418375477405349253777599976775527366189192757814345int);
    lemma_fundamental_div_mod_converse(8921042342442788163393498418375477405349253777599976775527366189192757814345int * 3, m, 1int, 4874884155489089267934089509869157127351450175502106663893060672933047234452int);
    assert(mod_pow(3, 2013383755314422777607389516108309835193451nat, 21888242871839275222246405745257275088696311157297823662689037894645226208583nat) == 4874884155489089267934089509869157127351450175502106663893060672933047234452nat);
    lemma_fundamental_div_mod_converse(4874884155489089267934089509869157127351450175502106663893060672933047234452int * 4874884155489089267934089509869157127351450175502106663893060672933047234452int, m, 1085719656373752298748591546887882778222384013090602212184482586342803808229int, 16623157881816768554252733630453607365249107687120474630623218371113969910797int);
    lemma_fundamental_div_mod_converse(16623157881816768554252733630453607365249107687120474630623218371113969910797int * 3, m, 2int, 6092987901771755218265389400846271918354700746765776566491579324051457315225int);
    assert(mod_pow(3, 4026767510628845555214779032216619670386903nat, 21888242871839275222246405745257275088696311157297823662689037894645226208583nat) == 6092987901771755218265389400846271918354700746765776566491579324051457315225nat);
    lemma_fundamental_div_mod_converse(6092987901771755218265389400846271918354700746765776566491579324051457315225int * 6092987901771755218265389400846271918354700746765776566491579324051457315225int, m, 1696093276582753573869106614173282210544433517402550829916677219317246375512int, 14935736906595498914244905363948876979281196300627457741572972626858561381129int);
    assert(mod_pow(3, 8053535021257691110429558064433239340773806nat, 21888242871839275222246405745257275088696311157297823662689037894645226208583nat) == 14935736906595498914244905363948876979281196300627457741572972626858561381129nat);
    lemma_fundamental_div_mod_converse(14935736906595498914244905363948876979281196300627457741572972626858561381129int * 14935736906595498914244905363948876979281196300627457741572972626858561381129int, m, 10191600954412003193741194320378736679671943286573295418304278341811865809489int, 6387379595521112272839173171496166614603166027341930336369519570380342670554int);
    lemma_fundamental_div_mod_converse(6387379595521112272839173171496166614603166027341930336369519570380342670554int * 3, m, 0int, 19162138786563336818517519514488499843809498082025791009108558711141028011662int);
    assert(mod_pow(3, 16107070042515382220859116128866478681547613nat, 21888242871839275222246405745257275088696311157297823662689037894645226208583nat) == 19162138786563336818517519514488499843809498082025791009108558711141028011662nat);
    lemma_fundamental_div_mod_converse(19162138786563336818517519514488499843809498082025791009108558711141028011662int * 19162138786563336818517519514488499843809498082025791009108558711141028011662int, m, 16775561429278866363363092418153880888736539925131817373528462954497995716490int, 6227069307125093174325431726125018927642567246833010200125381153919935368574int);
    assert(mod_pow(3, 32214140085030764441718232257732957363095226nat, 21888242871839275222246405745257275088696311157297823662689037894645226208583nat) == 6227069307125093174325431726125018927642567246833010200125381153919935368574nat);
    lemma_fundamental_div_mod_converse(6227069307125093174325431726125018927642567246833010200125381153919935368574int * 6227069307125093174325431726125018927642567246833010200125381153919935368574int, m, 1771562586489200300606016607212642303962190312746654395471023173180509648389int, 8286084426169645520712479236268102029153854428457234879226151329696322870689int);
    lemma_fundamental_div_mod_converse(8286084426169645520712479236268102029153854428457234879226151329696322870689int * 3, m, 1int, 2970010406669661339891031963547030998765252128073880974989416094443742403484int);
    assert(mod_pow(3, 64428280170061528883436464515465914726190453nat, 21888242871839275222246405745257275088696311157297823662689037894645226208583nat) == 2970010406669661339891031963547030998765252128073880974989416094443742403484nat);
    lemma_fundamental_div_mod_converse(2970010406669661339891031963547030998765252128073880974989416094443742403484int * 2970010406669661339891031963547030998765252128073880974989416094443742403484int, m, 402999997184555144832695217263134470569941515673824820877053762865685439491int, 5249628080127770689539946355903249250542221622649573890907018493471063987003int);
    assert(mod_pow(3, 128856560340123057766872929030931829452380906nat, 21888242871839275222246405745257275088696311157297823662689037894645226208583nat) == 5249628080127770689539946355903249250542221622649573890907018493471063987003nat);
    lemma_fundamental_div_mod_converse(5249628080127770689539946355903249250542221622649573890907018493471063987003int * 5249628080127770689539946355903249250542221622649573890907018493471063987003int, m, 1259059264876944738050054171394911504659458162062196732588917357475496736786int, 18013186889336744765019499896556119508513793227198924818434772324143067887771int);
    assert(mod_pow(3, 257713120680246115533745858061863658904761812nat, 21888242871839275222246405745257275088696311157297823662689037894645226208583nat) == 18013186889336744765019499896556119508513793227198924818434772324143067887771nat);
    lemma_fundamental_div_mod_converse(18013186889336744765019499896556119508513793227198924818434772324143067887771int * 18013186889336744765019499896556119508513793227198924818434772324143067887771int, m, 14824163995714447843462540238418830473596747098278147094826076504064064002600int, 1933463890496394742480665902725215894024178690845952336936388383005997032641int);
    lemma_fundamental_div_mod_converse(1933463890496394742480665902725215894024178690845952336936388383005997032641int * 3, m, 0int, 5800391671489184227441997708175647682072536072537857010809165149017991097923int);
    assert(mod_pow(3, 515426241360492231067491716123727317809523625nat, 21888242871839275222246405745257275088696311157297823662689037894645226208583nat) == 5800391671489184227441997708175647682072536072537857010809165149017991097923nat);
    lemma_fundamental_div_mod_converse(5800391671489184227441997708175647682072536072537857010809165149017991097923int * 5800391671489184227441997708175647682072536072537857010809165149017991097923int, m, 1537105730216796155028996439192985501652496257678170552679497690728741062092int, 2514746860847481187365374554470838370948245255637866178395030608105228578293int);
    assert(mod_pow(3, 1030852482720984462134983432247454635619047250nat, 21888242871839275222246405745257275088696311157297823662689037894645226208583nat) == 2514746860847481187365374554470838370948245255637866178395030608105228578293nat);
    lemma_fundamental_div_mod_converse(2514746860847481187365374554470838370948245255637866178395030608105228578293int * 2514746860847481187365374554470838370948245255637866178395030608105228578293int, m, 288920029404391265286445499071592392291307498593563615222864734980504418573int, 2379736508837349979421242639175593619468673391751785362631472298830393581790int);
    lemma_fundamental_div_mod_converse(2379736508837349979421242639175593619468673391751785362631472298830393581790int * 3, m, 0int, 7139209526512049938263727917526780858406020175255356087894416896491180745370int);
    assert(mod_pow(3, 2061704965441968924269966864494909271238094501nat, 21888242871839275222246405745257275088696311157297823662689037894645226208583nat) == 7139209526512049938263727917526780858406020175255356087894416896491180745370nat);
    lemma_fundamental_div_mod_converse(7139209526512049938263727917526780858406020175255356087894416896491180745370int * 7139209526512049938263727917526780858406020175255356087894416896491180745370int, m, 2328570317949762706615974155891562531757175044674829874930477880861680083259int, 214815252970070496922885650278242642101256257661117809609833943540436024903int);
    assert(mod_pow(3, 4123409930883937848539933728989818542476189002nat, 21888242871839275222246405745257275088696311157297823662689037894645226208583nat) == 214815252970070496922885650278242642101256257661117809609833943540436024903nat);
    lemma_fundamental_div_mod_converse(214815252970070496922885650278242642101256257661117809609833943540436024903int * 214815252970070496922885650278242642101256257661117809609833943540436024903int, m, 2108236516690193060790139017972351899232785178095045856937112815435640332int, 1810673600709136685218560180380849084634195194694932735887642412088836789853int);
    lemma_fundamental_div_mod_converse(1810673600709136685218560180380849084634195194694932735887642412088836789853int * 3, m, 0int, 5432020802127410055655680541142547253902585584084798207662927236266510369559int);
    assert(mod_pow(3, 8246819861767875697079867457979637084952378005nat, 21888242871839275222246405745257275088696311157297823662689037894645226208583nat) == 5432020802127410055655680541142547253902585584084798207662927236266510369559nat);
    lemma_fundamental_div_mod_converse(5432020802127410055655680541142547253902585584084798207662927236266510369559int * 5432020802127410055655680541142547253902585584084798207662927236266510369559int, m, 1348068466140217057165908685578465778091747887272654092908491617939809347468int, 13902777757532080777902418976103378585555606661342709645597071769833862936637int);
    lemma_fundamental_div_mod_converse(13902777757532080777902418976103378585555606661342709645597071769833862936637int * 3, m, 1int, 19820090400756967111460851183052860667970508826730305274102177414856362601328int);
    assert(mod_pow(3, 16493639723535751394159734915959274169904756011nat, 21888242871839275222246405745257275088696311157297823662689037894645226208583nat) == 19820090400756967111460851183052860667970508826730305274102177414856362601328nat);
    lemma_fundamental_div_mod_converse(19820090400756967111460851183052860667970508826730305274102177414856362601328int * 19820090400756967111460851183052860667970508826730305274102177414856362601328int, m, 17947351269552518203737126752794334378737694041853769634517395831202658804961int, 18056592651329797209315209196776695457768198985883620098947334569311366183321int);
    assert(mod_pow(3, 32987279447071502788319469831918548339809512022nat, 21888242871839275222246405745257275088696311157297823662689037894645226208583nat) == 18056592651329797209315209196776695457768198985883620098947334569311366183321nat);
    lemma_fundamental_div_mod_converse(18056592651329797209315209196776695457768198985883620098947334569311366183321int * 18056592651329797209315209196776695457768198985883620098947334569311366183321int, m, 14895692636686279475129749881933952710515481541846276470080253072590877823825int, 6006920393358097916747149420733960045030813880241375913468547885508001699066int);
    assert(mod_pow(3, 65974558894143005576638939663837096679619024044nat, 21888242871839275222246405745257275088696311157297823662689037894645226208583nat) == 6006920393358097916747149420733960045030813880241375913468547885508001699066nat);
    lemma_fundamental_div_mod_converse(6006920393358097916747149420733960045030813880241375913468547885508001699066int * 6006920393358097916747149420733960045030813880241375913468547885508001699066int, m, 1648514813336833801179864795900743386346802243334625057184264702946296028401int, 5767953247734034084039077390669400634627879068267548260926713711614707306573int);
    assert(mod_pow(3, 131949117788286011153277879327674193359238048088nat, 21888242871839275222246405745257275088696311157297823662689037894645226208583nat) == 5767953247734034084039077390669400634627879068267548260926713711614707306573nat);
    lemma_fundamental_div_mod_converse(5767953247734034084039077390669400634627879068267548260926713711614707306573int * 5767953247734034084039077390669400634627879068267548260926713711614707306573int, m, 1519961417773228691880908551134788124681578927057134755313359036767542025411int, 9814889826865314114953184249872275530377579764359460632592156154176036701716int);
    lemma_fundamental_div_mod_converse(9814889826865314114953184249872275530377579764359460632592156154176036701716int * 3, m, 1int, 7556426608756667122613147004359551502436428135780558235087430567882883896565int);
    assert(mod_pow(3, 263898235576572022306555758655348386718476096177nat, 21888242871839275222246405745257275088696311157297823662689037894645226208583nat) == 7556426608756667122613147004359551502436428135780558235087430567882883896565nat);
    lemma_fundamental_div_mod_converse(7556426608756667122613147004359551502436428135780558235087430567882883896565int * 7556426608756667122613147004359551502436428135780558235087430567882883896565int, m, 2608687386550718164126833020559844371750323764664230953331870251066676199133int, 2967213853044348716722213275156246631231313170662134360411838119486917040686int);
    assert(mod_pow(3, 527796471153144044613111517310696773436952192354nat, 21888242871839275222246405745257275088696311157297823662689037894645226208583nat) == 2967213853044348716722213275156246631231313170662134360411838119486917040686nat);
    lemma_fundamental_div_mod_converse(2967213853044348716722213275156246631231313170662134360411838119486917040686int * 2967213853044348716722213275156246631231313170662134360411838119486917040686int, m, 402241427109971444318107140462340321602795528432081087019314284733791984980int, 12104369870826695666850929793717825609836835665982870291449671729172696267256int);
    assert(mod_pow(3, 1055592942306288089226223034621393546873904384708nat, 21888242871839275222246405745257275088696311157297823662689037894645226208583nat) == 12104369870826695666850929793717825609836835665982870291449671729172696267256nat);
    lemma_fundamental_div_mod_converse(12104369870826695666850929793717825609836835665982870291449671729172696267256int * 12104369870826695666850929793717825609836835665982870291449671729172696267256int, m, 6693811414084757716659375692156358790479701124987495915607076809354735907058int, 10969621088811676317913598160788809750984493288915441014482200113870967890722int);
    assert(mod_pow(3, 2111185884612576178452446069242787093747808769416nat, 21888242871839275222246405745257275088696311157297823662689037894645226208583nat) == 10969621088811676317913598160788809750984493288915441014482200113870967890722nat);
    lemma_fundamental_div_mod_converse(10969621088811676317913598160788809750984493288915441014482200113870967890722int * 10969621088811676317913598160788809750984493288915441014482200113870967890722int, m, 5497590077772665259163138187430214573711497054647477833763965716863521642570int, 16566835847679921432291186090095328910303483541800871647527886367924141502974int);
    lemma_fundamental_div_mod_converse(16566835847679921432291186090095328910303483541800871647527886367924141502974int * 3, m, 2int, 5924021799361213852380746779771436553517828310806967617205583314481972091756int);
    assert(mod_pow(3, 4222371769225152356904892138485574187495617538833nat, 21888242871839275222246405745257275088696311157297823662689037894645226208583nat) == 5924021799361213852380746779771436553517828310806967617205583314481972091756nat);
    lemma_fundamental_div_mod_converse(5924021799361213852380746779771436553517828310806967617205583314481972091756int * 5924021799361213852380746779771436553517828310806967617205583314481972091756int, m, 1603328073650797912283085264404797807733723970660695363509884635498912071058int, 630399972951536502230953420630635474807000115607148958047577917608457672722int);
    lemma_fundamental_div_mod_converse(630399972951536502230953420630635474807000115607148958047577917608457672722int * 3, m, 0int, 1891199918854609506692860261891906424421000346821446874142733752825373018166int);
    assert(mod_pow(3, 8444743538450304713809784276971148374991235077667nat, 21888242871839275222246405745257275088696311157297823662689037894645226208583nat) == 1891199918854609506692860261891906424421000346821446874142733752825373018166nat);
    lemma_fundamental_div_mod_converse(1891199918854609506692860261891906424421000346821446874142733752825373018166int * 1891199918854609506692860261891906424421000346821446874142733752825373018166int, m, 163404488611430313299636015956463886143353864445356459619386685336624043241int, 743306319779715858592911947524631340265429411992615623950149833181888666053int);
    assert(mod_pow(3, 16889487076900609427619568553942296749982470155334nat, 21888242871839275222246405745257275088696311157297823662689037894645226208583nat) == 743306319779715858592911947524631340265429411992615623950149833181888666053nat);
    lemma_fundamental_div_mod_converse(743306319779715858592911947524631340265429411992615623950149833181888666053int * 743306319779715858592911947524631340265429411992615623950149833181888666053int, m, 25242057494496273383732535016311062025961680869394927224958955661587464806int, 21224332236244448988335886795600631403441929019273836912742284244725426968911int);
    lemma_fundamental_div_mod_converse(21224332236244448988335886795600631403441929019273836912742284244725426968911int * 3, m, 2int, 19896510965054796520514848896287344032933164743225863412848776944885828489567int);
    assert(mod_pow(3, 33778974153801218855239137107884593499964940310669nat, 21888242871839275222246405745257275088696311157297823662689037894645226208583nat) == 19896510965054796520514848896287344032933164743225863412848776944885828489567nat);
    lemma_fundamental_div_mod_converse(19896510965054796520514848896287344032933164743225863412848776944885828489567int * 19896510965054796520514848896287344032933164743225863412848776944885828489567int, m, 18086017726523910144004783737315879308328380519007694596318272659533620080941int, 13088073790293667001348429927084170222437520744113370974118527324237618930886int);
    lemma_fundamental_div_mod_converse(13088073790293667001348429927084170222437520744113370974118527324237618930886int * 3, m, 1int, 17375978499041725781798884035995235578616251075042289259666544078067630584075int);
    assert(mod_pow(3, 67557948307602437710478274215769186999929880621339nat, 21888242871839275222246405745257275088696311157297823662689037894645226208583nat) == 17375978499041725781798884035995235578616251075042289259666544078067630584075nat);
    lemma_fundamental_div_mod_converse(17375978499041725781798884035995235578616251075042289259666544078067630584075int * 17375978499041725781798884035995235578616251075042289259666544078067630584075int, m, 13793918066744730608790246134320919903450343642163711633762837341651759319584int, 8762516100352829682754413800740654235975226444419404140787003019505502816153int);
    assert(mod_pow(3, 135115896615204875420956548431538373999859761242678nat, 21888242871839275222246405745257275088696311157297823662689037894645226208583nat) == 8762516100352829682754413800740654235975226444419404140787003019505502816153nat);
    lemma_fundamental_div_mod_converse(8762516100352829682754413800740654235975226444419404140787003019505502816153int * 8762516100352829682754413800740654235975226444419404140787003019505502816153int, m, 3507896401667192146690465862062962771636852111386246749397800118580758756883int, 15282422531304269460119791670849163106271304638483235682907920951619372792620int);
    assert(mod_pow(3, 270231793230409750841913096863076747999719522485356nat, 21888242871839275222246405745257275088696311157297823662689037894645226208583nat) == 15282422531304269460119791670849163106271304638483235682907920951619372792620nat);
    lemma_fundamental_div_mod_converse(15282422531304269460119791670849163106271304638483235682907920951619372792620int * 15282422531304269460119791670849163106271304638483235682907920951619372792620int, m, 10670223269762673169335172375391984991840070085385583318600881507193480174540int, 6495109294346362881622831110543548046139655762626894297893146682476240387580int);
    lemma_fundamental_div_mod_converse(6495109294346362881622831110543548046139655762626894297893146682476240387580int * 3, m, 0int, 19485327883039088644868493331630644138418967287880682893679440047428721162740int);
    assert(mod_pow(3, 540463586460819501683826193726153495999439044970713nat, 21888242871839275222246405745257275088696311157297823662689037894645226208583nat) == 19485327883039088644868493331630644138418967287880682893679440047428721162740nat);
    lemma_fundamental_div_mod_converse(19485327883039088644868493331630644138418967287880682893679440047428721162740int * 19485327883039088644868493331630644138418967287880682893679440047428721162740int, m, 17346207502020289952773187793574955304121551551660032369645231080426009728175int, 17633278334286567722704862376917420409488698385285807162320868121307882381575int);
    assert(mod_pow(3, 1080927172921639003367652387452306991998878089941426nat, 21888242871839275222246405745257275088696311157297823662689037894645226208583nat) == 17633278334286567722704862376917420409488698385285807162320868121307882381575nat);
    lemma_fundamental_div_mod_converse(17633278334286567722704862376917420409488698385285807162320868121307882381575int * 17633278334286567722704862376917420409488698385285807162320868121307882381575int, m, 14205457543348810909275062112517270204293856623833989227998157482079296084757int, 18812657053476657711624763088341255820610009121986265475555340147058570611294int);
    lemma_fundamental_div_mod_converse(18812657053476657711624763088341255820610009121986265475555340147058570611294int * 3, m, 2int, 12661485416751422690381477774509217284437405051363149101287944651885259416716int);
    assert(mod_pow(3, 2161854345843278006735304774904613983997756179882853nat, 21888242871839275222246405745257275088696311157297823662689037894645226208583nat) == 12661485416751422690381477774509217284437405051363149101287944651885259416716nat);
    lemma_fundamental_div_mod_converse(12661485416751422690381477774509217284437405051363149101287944651885259416716int * 12661485416751422690381477774509217284437405051363149101287944651885259416716int, m, 7324170053177858558057410184035177934753549985355433369515542646655696159133int, 17422204442837962533977414770587118550974829902176910966797343856531521786117int);
    assert(mod_pow(3, 4323708691686556013470609549809227967995512359765706nat, 21888242871839275222246405745257275088696311157297823662689037894645226208583nat) == 17422204442837962533977414770587118550974829902176910966797343856531521786117nat);
    lemma_fundamental_div_mod_converse(17422204442837962533977414770587118550974829902176910966797343856531521786117int * 17422204442837962533977414770587118550974829902176910966797343856531521786117int, m, 13867408609512420833068053671648414748116073716924742822283321332538048144441int, 19768544132389627911143211090776992770849931072343393619144899338221116000586int);
    lemma_fundamental_div_mod_converse(19768544132389627911143211090776992770849931072343393619144899338221116000586int * 3, m, 2int, 15529146653490333288936821781816428135157170902434533532056622225372895584592int);
    assert(mod_pow(3, 8647417383373112026941219099618455935991024719531413nat, 21888242871839275222246405745257275088696311157297823662689037894645226208583nat) == 15529146653490333288936821781816428135157170902434533532056622225372895584592nat);
    lemma_fundamental_div_mod_converse(15529146653490333288936821781816428135157170902434533532056622225372895584592int * 15529146653490333288936821781816428135157170902434533532056622225372895584592int, m, 11017531064399494467856104481376828678122805760204409390275068365673779859827int, 6276414170242226765000162976403927156900904823759953247974145899449023511323int);
    lemma_fundamental_div_mod_converse(6276414170242226765000162976403927156900904823759953247974145899449023511323int * 3, m, 0int, 18829242510726680295000488929211781470702714471279859743922437698347070533969int);
    assert(mod_pow(3, 17294834766746224053882438199236911871982049439062827nat, 21888242871839275222246405745257275088696311157297823662689037894645226208583nat) == 18829242510726680295000488929211781470702714471279859743922437698347070533969nat);
    lemma_fundamental_div_mod_converse(18829242510726680295000488929211781470702714471279859743922437698347070533969int * 18829242510726680295000488929211781470702714471279859743922437698347070533969int, m, 16197753999883529779021716905421500449933035957147034695408912205410590041687int, 6035500915637453057089232883708934826452072526903288309677683700887855693440int);
    lemma_fundamental_div_mod_converse(6035500915637453057089232883708934826452072526903288309677683700887855693440int * 3, m, 0int, 18106502746912359171267698651126804479356217580709864929033051102663567080320int);
    assert(mod_pow(3, 34589669533492448107764876398473823743964098878125655nat, 21888242871839275222246405745257275088696311157297823662689037894645226208583nat) == 18106502746912359171267698651126804479356217580709864929033051102663567080320nat);
    lemma_fundamental_div_mod_converse(18106502746912359171267698651126804479356217580709864929033051102663567080320int * 18106502746912359171267698651126804479356217580709864929033051102663567080320int, m, 14978152592857987748449936914928262897010039100202899338735053987602467690107int, 16945921665282535992558041250105641197405997850194771704390666803911943714019int);
    assert(mod_pow(3, 69179339066984896215529752796947647487928197756251310nat, 21888242871839275222246405745257275088696311157297823662689037894645226208583nat) == 16945921665282535992558041250105641197405997850194771704390666803911943714019nat);
    lemma_fundamental_div_mod_converse(16945921665282535992558041250105641197405997850194771704390666803911943714019int * 16945921665282535992558041250105641197405997850194771704390666803911943714019int, m, 13119566644399242448842996516839877599802348614098104456672913717258022067118int, 11123497747289504911717984293759190626858354640680878940739557452472163458567int);
    lemma_fundamental_div_mod_converse(11123497747289504911717984293759190626858354640680878940739557452472163458567int * 3, m, 1int, 11482250370029239512907547136020296791878752764744813159529634462771264167118int);
    assert(mod_pow(3, 138358678133969792431059505593895294975856395512502621nat, 21888242871839275222246405745257275088696311157297823662689037894645226208583nat) == 11482250370029239512907547136020296791878752764744813159529634462771264167118nat);
    lemma_fundamental_div_mod_converse(11482250370029239512907547136020296791878752764744813159529634462771264167118int * 11482250370029239512907547136020296791878752764744813159529634462771264167118int, m, 6023419711303572587213904626376067371804154522532306335499918927055661587117int, 12973591454444237519076745423227382540742998196915910115887379654007964800713int);
    lemma_fundamental_div_mod_converse(12973591454444237519076745423227382540742998196915910115887379654007964800713int * 3, m, 1int, 17032531491493437334983830524424872533532683433449906684973101067378668193556int);
    assert(mod_pow(3, 276717356267939584862119011187790589951712791025005243nat, 21888242871839275222246405745257275088696311157297823662689037894645226208583nat) == 17032531491493437334983830524424872533532683433449906684973101067378668193556nat);
    lemma_fundamental_div_mod_converse(17032531491493437334983830524424872533532683433449906684973101067378668193556int * 17032531491493437334983830524424872533532683433449906684973101067378668193556int, m, 13254016355143717988993304725970036826824044104862498032206495697852452502604int, 11595028264050505725722322931202398924247819961806136280673509735695425275004int);
    lemma_fundamental_div_mod_converse(11595028264050505725722322931202398924247819961806136280673509735695425275004int * 3, m, 1int, 12896841920312241954920563048349921684047148728120585179331491312441049616429int);
    assert(mod_pow(3, 553434712535879169724238022375581179903425582050010487nat, 21888242871839275222246405745257275088696311157297823662689037894645226208583nat) == 12896841920312241954920563048349921684047148728120585179331491312441049616429nat);
    lemma_fundamental_div_mod_converse(12896841920312241954920563048349921684047148728120585179331491312441049616429int * 12896841920312241954920563048349921684047148728120585179331491312441049616429int, m, 7598989671825882990552102633273403234589657846112733924039413261562870030963int, 7597020495184086650450334118169718708713973347794487536255666759915720356612int);
    lemma_fundamental_div_mod_converse(7597020495184086650450334118169718708713973347794487536255666759915720356612int * 3, m, 1int, 902818613712984729104596609251881037445608886085638946077962385101934861253int);
    assert(mod_pow(3, 1106869425071758339448476044751162359806851164100020975nat, 21888242871839275222246405745257275088696311157297823662689037894645226208583nat) == 902818613712984729104596609251881037445608886085638946077962385101934861253nat);
    lemma_fundamental_div_mod_converse(902818613712984729104596609251881037445608886085638946077962385101934861253int * 902818613712984729104596609251881037445608886085638946077962385101934861253int, m, 37238322602646816019547663780100623348363644874278280421744454787108428155int, 20282030788470849561929011304242046641582594656648247393484711654493060875644int);
    assert(mod_pow(3, 2213738850143516678896952089502324719613702328200041950nat, 21888242871839275222246405745257275088696311157297823662689037894645226208583nat) == 20282030788470849561929011304242046641582594656648247393484711654493060875644nat);
    lemma_fundamental_div_mod_converse(20282030788470849561929011304242046641582594656648247393484711654493060875644int * 20282030788470849561929011304242046641582594656648247393484711654493060875644int, m, 18793686423944212649039995280851954450369833791069626774879354212577966633889int, 12518544909473710110567783638315540008025741551787305978975726209149721945449int);
    lemma_fundamental_div_mod_converse(12518544909473710110567783638315540008025741551787305978975726209149721945449int * 3, m, 1int, 15667391856581855109456945169689344935380913498064094274238140732803939627764int);
    assert(mod_pow(3, 4427477700287033357793904179004649439227404656400083901nat, 21888242871839275222246405745257275088696311157297823662689037894645226208583nat) == 15667391856581855109456945169689344935380913498064094274238140732803939627764nat);
    lemma_fundamental_div_mod_converse(15667391856581855109456945169689344935380913498064094274238140732803939627764int * 15667391856581855109456945169689344935380913498064094274238140732803939627764int, m, 11214567063466650642790458598892267358881447121829384378257388860498296617941int, 18936275262428404403685938797489570202673816111931647077168012407515753652093int);
    lemma_fundamental_div_mod_converse(18936275262428404403685938797489570202673816111931647077168012407515753652093int * 3, m, 2int, 13032340043606662766565004901954160430628826021199293906125961433256808539113int);
    assert(mod_pow(3, 8854955400574066715587808358009298878454809312800167803nat, 21888242871839275222246405745257275088696311157297823662689037894645226208583nat) == 13032340043606662766565004901954160430628826021199293906125961433256808539113nat);
    lemma_fundamental_div_mod_converse(13032340043606662766565004901954160430628826021199293906125961433256808539113int * 13032340043606662766565004901954160430628826021199293906125961433256808539113int, m, 7759503035792194273532119365053212779633681990237199761932383650810133943762int, 10499394332956961543533612993232650273219416253707423476889245463404647117523int);
    assert(mod_pow(3, 17709910801148133431175616716018597756909618625600335606nat, 21888242871839275222246405745257275088696311157297823662689037894645226208583nat) == 10499394332956961543533612993232650273219416253707423476889245463404647117523nat);
    lemma_fundamental_div_mod_converse(10499394332956961543533612993232650273219416253707423476889245463404647117523int * 10499394332956961543533612993232650273219416253707423476889245463404647117523int, m, 5036369616528541817637359366130611222709199619159613992112891350202254226829int, 1163993236522236097544860868523109682878861005581030292781742894910824982222int);
    lemma_fundamental_div_mod_converse(1163993236522236097544860868523109682878861005581030292781742894910824982222int * 3, m, 0int, 3491979709566708292634582605569329048636583016743090878345228684732474946666int);
    assert(mod_pow(3, 35419821602296266862351233432037195513819237251200671213nat, 21888242871839275222246405745257275088696311157297823662689037894645226208583nat) == 3491979709566708292634582605569329048636583016743090878345228684732474946666nat);
    lemma_fundamental_div_mod_converse(3491979709566708292634582605569329048636583016743090878345228684732474946666int * 3491979709566708292634582605569329048636583016743090878345228684732474946666int, m, 557099186235451967522354562013506891775859187537996061185234145978680932788int, 3327107560817647474361944560666799266564014833523580078332959899084452796152int);
    assert(mod_pow(3, 70839643204592533724702466864074391027638474502401342426nat, 21888242871839275222246405745257275088696311157297823662689037894645226208583nat) == 3327107560817647474361944560666799266564014833523580078332959899084452796152nat);
    lemma_fundamental_div_mod_converse(3327107560817647474361944560666799266564014833523580078332959899084452796152int * 3327107560817647474361944560666799266564014833523580078332959899084452796152int, m, 505734735586830155599576320005433612246045700878359104418418057587716085186int, 19509251135637877749711814322202623492830644885029140402735849191085033655666int);
    lemma_fundamental_div_mod_converse(19509251135637877749711814322202623492830644885029140402735849191085033655666int * 3, m, 2int, 14751267663235082804642631476093320301099312340491773882829471783964648549832int);
    assert(mod_pow(3, 141679286409185067449404933728148782055276949004802684853nat, 21888242871839275222246405745257275088696311157297823662689037894645226208583nat) == 14751267663235082804642631476093320301099312340491773882829471783964648549832nat);
    lemma_fundamental_div_mod_converse(14751267663235082804642631476093320301099312340491773882829471783964648549832int * 14751267663235082804642631476093320301099312340491773882829471783964648549832int, m, 9941405481769493886314705060053185454410728624791443537513518108157478865367int, 14116813454650483839228989901712440455956995811339779041421376310278470383263int);
    assert(mod_pow(3, 283358572818370134898809867456297564110553898009605369706nat, 21888242871839275222246405745257275088696311157297823662689037894645226208583nat) == 14116813454650483839228989901712440455956995811339779041421376310278470383263nat);
    lemma_fundamental_div_mod_converse(14116813454650483839228989901712440455956995811339779041421376310278470383263int * 14116813454650483839228989901712440455956995811339779041421376310278470383263int, m, 9104633171344877440278536943762278358438176543336384447524506308983019718398int, 8373399236729137229538189189744632324611971353508279005434852174372239917135int);
    assert(mod_pow(3, 566717145636740269797619734912595128221107796019210739412nat, 21888242871839275222246405745257275088696311157297823662689037894645226208583nat) == 8373399236729137229538189189744632324611971353508279005434852174372239917135nat);
    lemma_fundamental_div_mod_converse(8373399236729137229538189189744632324611971353508279005434852174372239917135int * 8373399236729137229538189189744632324611971353508279005434852174372239917135int, m, 3203263742466158696556979661937838381475585188178118260658422240316580930657int, 6058855942339775210108276718003320316878525596418516899380043013177925379194int);
    lemma_fundamental_div_mod_converse(6058855942339775210108276718003320316878525596418516899380043013177925379194int * 3, m, 0int, 18176567827019325630324830154009960950635576789255550698140129039533776137582int);
    assert(mod_pow(3, 1133434291273480539595239469825190256442215592038421478825nat, 21888242871839275222246405745257275088696311157297823662689037894645226208583nat) == 18176567827019325630324830154009960950635576789255550698140129039533776137582nat);
    lemma_fundamental_div_mod_converse(18176567827019325630324830154009960950635576789255550698140129039533776137582int * 18176567827019325630324830154009960950635576789255550698140129039533776137582int, m, 15094296052210767728186989707013004003410762547095951220173173774351915609483int, 7095494193127376779645401833373793020080248146393147876924626956066462014135int);
    assert(mod_pow(3, 2266868582546961079190478939650380512884431184076842957650nat, 21888242871839275222246405745257275088696311157297823662689037894645226208583nat) == 7095494193127376779645401833373793020080248146393147876924626956066462014135nat);
    lemma_fundamental_div_mod_converse(7095494193127376779645401833373793020080248146393147876924626956066462014135int * 7095494193127376779645401833373793020080248146393147876924626956066462014135int, m, 2300140680067012244783354355197463462556883917577109962499381308673474205964int, 18681565819706807834381225895845936070149010176417097175605870570282773209213int);
    lemma_fundamental_div_mod_converse(18681565819706807834381225895845936070149010176417097175605870570282773209213int * 3, m, 2int, 12268211715441873058650866197023258033054408214655644201439535921557867210473int);
    assert(mod_pow(3, 4533737165093922158380957879300761025768862368153685915301nat, 21888242871839275222246405745257275088696311157297823662689037894645226208583nat) == 12268211715441873058650866197023258033054408214655644201439535921557867210473nat);
    lemma_fundamental_div_mod_converse(12268211715441873058650866197023258033054408214655644201439535921557867210473int * 12268211715441873058650866197023258033054408214655644201439535921557867210473int, m, 6876249481338924415980347119838505073904305060606453896680431342737697434224int, 623786597976944939101390551164532874937647429389264140524814579167934139137int);
    assert(mod_pow(3, 9067474330187844316761915758601522051537724736307371830602nat, 21888242871839275222246405745257275088696311157297823662689037894645226208583nat) == 623786597976944939101390551164532874937647429389264140524814579167934139137nat);
    lemma_fundamental_div_mod_converse(623786597976944939101390551164532874937647429389264140524814579167934139137int * 623786597976944939101390551164532874937647429389264140524814579167934139137int, m, 17777110848686125186629133480344446001096598656944574174857202681688734397int, 19012585356643537516590960807649341192733117833026716151856589520965266375318int);
    assert(mod_pow(3, 18134948660375688633523831517203044103075449472614743661204nat, 21888242871839275222246405745257275088696311157297823662689037894645226208583nat) == 19012585356643537516590960807649341192733117833026716151856589520965266375318nat);
    lemma_fundamental_div_mod_converse(19012585356643537516590960807649341192733117833026716151856589520965266375318int * 19012585356643537516590960807649341192733117833026716151856589520965266375318int, m, 16514729120112378330514571545726784236168770064459810027118282860707648503634int, 19471469739628764475520527525668194539917459376573519339340254854350922110502int);
    lemma_fundamental_div_mod_converse(19471469739628764475520527525668194539917459376573519339340254854350922110502int * 3, m, 2int, 14637923475207742982068771086490033442359755815124910692642688773762313914340int);
    assert(mod_pow(3, 36269897320751377267047663034406088206150898945229487322409nat, 21888242871839275222246405745257275088696311157297823662689037894645226208583nat) == 14637923475207742982068771086490033442359755815124910692642688773762313914340nat);
    lemma_fundamental_div_mod_converse(14637923475207742982068771086490033442359755815124910692642688773762313914340int * 14637923475207742982068771086490033442359755815124910692642688773762313914340int, m, 9789219030537596523160943499439371333660067368320320585987973625308898129218int, 17134741995799381884922386561005313426555463105835684411153534615661102957506int);
    lemma_fundamental_div_mod_converse(17134741995799381884922386561005313426555463105835684411153534615661102957506int * 3, m, 2int, 7627740243719595210274348192501390102273767002911405908082528057692856455352int);
    assert(mod_pow(3, 72539794641502754534095326068812176412301797890458974644819nat, 21888242871839275222246405745257275088696311157297823662689037894645226208583nat) == 7627740243719595210274348192501390102273767002911405908082528057692856455352nat);
    lemma_fundamental_div_mod_converse(7627740243719595210274348192501390102273767002911405908082528057692856455352int * 7627740243719595210274348192501390102273767002911405908082528057692856455352int, m, 2658158608999863700404142206282586280782746266405096299955778586568102989065int, 650468381276468180758419487790998297321051291922127628657319383858511299009int);
    assert(mod_pow(3, 145079589283005509068190652137624352824603595780917949289638nat, 21888242871839275222246405745257275088696311157297823662689037894645226208583nat) == 650468381276468180758419487790998297321051291922127628657319383858511299009nat);
    lemma_fundamental_div_mod_converse(650468381276468180758419487790998297321051291922127628657319383858511299009int * 650468381276468180758419487790998297321051291922127628657319383858511299009int, m, 19330428555541461911360444316688872618826245991000261560027045755447558941int, 15265132869692659643478922721325573859506191480586511185417231692336751791478int);
    assert(mod_pow(3, 290159178566011018136381304275248705649207191561835898579276nat, 21888242871839275222246405745257275088696311157297823662689037894645226208583nat) == 15265132869692659643478922721325573859506191480586511185417231692336751791478nat);
    lemma_fundamental_div_mod_converse(15265132869692659643478922721325573859506191480586511185417231692336751791478int * 15265132869692659643478922721325573859506191480586511185417231692336751791478int, m, 10646093562365070652192766996584840878625532147645487743603401510811878647072int, 19534790113807994969941759375862365073845674997617188388733322637880279205508int);
    lemma_fundamental_div_mod_converse(19534790113807994969941759375862365073845674997617188388733322637880279205508int * 3, m, 2int, 14827884597745434465332466637072545044144402678255917840821892124350385199358int);
    assert(mod_pow(3, 580318357132022036272762608550497411298414383123671797158553nat, 21888242871839275222246405745257275088696311157297823662689037894645226208583nat) == 14827884597745434465332466637072545044144402678255917840821892124350385199358nat);
    lemma_fundamental_div_mod_converse(14827884597745434465332466637072545044144402678255917840821892124350385199358int * 14827884597745434465332466637072545044144402678255917840821892124350385199358int, m, 10044943439792016036097285039987530896833920303684065753365974260118014081218int, 13632154504364688817910482592432401574195708665890604405079374057449032918070int);
    assert(mod_pow(3, 1160636714264044072545525217100994822596828766247343594317106nat, 21888242871839275222246405745257275088696311157297823662689037894645226208583nat) == 13632154504364688817910482592432401574195708665890604405079374057449032918070nat);
    lemma_fundamental_div_mod_converse(13632154504364688817910482592432401574195708665890604405079374057449032918070int * 13632154504364688817910482592432401574195708665890604405079374057449032918070int, m, 8490203508750387586225305678143304502868117926849273814003978259974962731746int, 3670366608614291425577789064920569836422664746553564344006094655263260748982int);
    assert(mod_pow(3, 2321273428528088145091050434201989645193657532494687188634212nat, 21888242871839275222246405745257275088696311157297823662689037894645226208583nat) == 3670366608614291425577789064920569836422664746553564344006094655263260748982nat);
    lemma_fundamental_div_mod_converse(3670366608614291425577789064920569836422664746553564344006094655263260748982int * 3670366608614291425577789064920569836422664746553564344006094655263260748982int, m, 615471562542048563327155422391438031509056647558110393063342298705756570512int, 7210304790174223740605014581494947613578164705310285243381842738565154931828int);
    assert(mod_pow(3, 4642546857056176290182100868403979290387315064989374377268424nat, 21888242871839275222246405745257275088696311157297823662689037894645226208583nat) == 7210304790174223740605014581494947613578164705310285243381842738565154931828nat);
    lemma_fundamental_div_mod_converse(7210304790174223740605014581494947613578164705310285243381842738565154931828int * 7210304790174223740605014581494947613578164705310285243381842738565154931828int, m, 2375179016041352465596888011359500294502059511273393713504153432940135028473int, 16122234344328020988271485544800902425942449155780242874480804401806785437825int);
    lemma_fundamental_div_mod_converse(16122234344328020988271485544800902425942449155780242874480804401806785437825int * 3, m, 2int, 4590217289305512520321645143888157100434725152745081298064337416129903896309int);
    assert(mod_pow(3, 9285093714112352580364201736807958580774630129978748754536849nat, 21888242871839275222246405745257275088696311157297823662689037894645226208583nat) == 4590217289305512520321645143888157100434725152745081298064337416129903896309nat);
    lemma_fundamental_div_mod_converse(4590217289305512520321645143888157100434725152745081298064337416129903896309int * 4590217289305512520321645143888157100434725152745081298064337416129903896309int, m, 962621572065401758801222601591412816441002627048643078653053340348147416036int, 10250543171605283865799538994701239215933595335660640766295094683382808786493int);
    assert(mod_pow(3, 18570187428224705160728403473615917161549260259957497509073698nat, 21888242871839275222246405745257275088696311157297823662689037894645226208583nat) == 10250543171605283865799538994701239215933595335660640766295094683382808786493nat);
    lemma_fundamental_div_mod_converse(10250543171605283865799538994701239215933595335660640766295094683382808786493int * 10250543171605283865799538994701239215933595335660640766295094683382808786493int, m, 4800460042780690546288324025532265799219968212069239422282714889855298716607int, 15568336054350747156722303718001693789382836340244748638990654387002871201168int);
    lemma_fundamental_div_mod_converse(15568336054350747156722303718001693789382836340244748638990654387002871201168int * 3, m, 2int, 2928522419373691025674099663490531190755886706138598591593887371718161186338int);
    assert(mod_pow(3, 37140374856449410321456806947231834323098520519914995018147397nat, 21888242871839275222246405745257275088696311157297823662689037894645226208583nat) == 2928522419373691025674099663490531190755886706138598591593887371718161186338nat);
    lemma_fundamental_div_mod_converse(2928522419373691025674099663490531190755886706138598591593887371718161186338int * 2928522419373691025674099663490531190755886706138598591593887371718161186338int, m, 391819645413760546813237803025379857686074267578570952670480212025210228407int, 21573831149546208778960563821233402659610714062594075575016749811843504032963int);
    assert(mod_pow(3, 74280749712898820642913613894463668646197041039829990036294794nat, 21888242871839275222246405745257275088696311157297823662689037894645226208583nat) == 21573831149546208778960563821233402659610714062594075575016749811843504032963nat);
    lemma_fundamental_div_mod_converse(21573831149546208778960563821233402659610714062594075575016749811843504032963int * 21573831149546208778960563821233402659610714062594075575016749811843504032963int, m, 21263935766536021717546980133324640472616786297960041984817603696541056620544int, 3785014020812893266427426602308285627753856629035413024208564604509763630217int);
    assert(mod_pow(3, 148561499425797641285827227788927337292394082079659980072589588nat, 21888242871839275222246405745257275088696311157297823662689037894645226208583nat) == 3785014020812893266427426602308285627753856629035413024208564604509763630217nat);
    lemma_fundamental_div_mod_converse(3785014020812893266427426602308285627753856629035413024208564604509763630217int * 3785014020812893266427426602308285627753856629035413024208564604509763630217int, m, 654521754972939934977094113512083617218757573943199589218623017156480096491int, 264389599170678148131308835066807443786413859652550978553792585424383084836int);
    assert(mod_pow(3, 297122998851595282571654455577854674584788164159319960145179176nat, 21888242871839275222246405745257275088696311157297823662689037894645226208583nat) == 264389599170678148131308835066807443786413859652550978553792585424383084836nat);
    lemma_fundamental_div_mod_converse(264389599170678148131308835066807443786413859652550978553792585424383084836int * 264389599170678148131308835066807443786413859652550978553792585424383084836int, m, 3193580250316273207976676624387331080304124796816794539271708245141639137int, 18152404455805851642401260508076001981430684135487902493549547186731095034025int);
    assert(mod_pow(3, 594245997703190565143308911155709349169576328318639920290358352nat, 21888242871839275222246405745257275088696311157297823662689037894645226208583nat) == 18152404455805851642401260508076001981430684135487902493549547186731095034025nat);
    lemma_fundamental_div_mod_converse(18152404455805851642401260508076001981430684135487902493549547186731095034025int * 18152404455805851642401260508076001981430684135487902493549547186731095034025int, m, 15054190939698364948126294032557300054987594218312520874029083770073861680804int, 20126229700788334102254163255230536337103038720868349003980079125283236559893int);
    lemma_fundamental_div_mod_converse(20126229700788334102254163255230536337103038720868349003980079125283236559893int * 3, m, 2int, 16602203358686451862269678275177058833916493848009399686562161586559257262513int);
    assert(mod_pow(3, 1188491995406381130286617822311418698339152656637279840580716705nat, 21888242871839275222246405745257275088696311157297823662689037894645226208583nat) == 16602203358686451862269678275177058833916493848009399686562161586559257262513nat);
    lemma_fundamental_div_mod_converse(16602203358686451862269678275177058833916493848009399686562161586559257262513int * 16602203358686451862269678275177058833916493848009399686562161586559257262513int, m, 12592749357592365344438918295773109766099628972975066159050381939102522291934int, 15531898421800401549980361176679655521340557901583294825984937756720292605647int);
    assert(mod_pow(3, 2376983990812762260573235644622837396678305313274559681161433410nat, 21888242871839275222246405745257275088696311157297823662689037894645226208583nat) == 15531898421800401549980361176679655521340557901583294825984937756720292605647nat);
    lemma_fundamental_div_mod_converse(15531898421800401549980361176679655521340557901583294825984937756720292605647int * 15531898421800401549980361176679655521340557901583294825984937756720292605647int, m, 11021436028357371300573518525235565640179501337522618478544341597244596490819int, 12090410920251366281029040298618735948533378335865665677660165372894717789132int);
    assert(mod_pow(3, 4753967981625524521146471289245674793356610626549119362322866820nat, 21888242871839275222246405745257275088696311157297823662689037894645226208583nat) == 12090410920251366281029040298618735948533378335865665677660165372894717789132nat);
    lemma_fundamental_div_mod_converse(12090410920251366281029040298618735948533378335865665677660165372894717789132int * 12090410920251366281029040298618735948533378335865665677660165372894717789132int, m, 6678381498069063962469752994534026885800927058705302574033704598602386384037int, 2271444554164063969324685810866815041987737472474609788049251011037513723853int);
    lemma_fundamental_div_mod_converse(2271444554164063969324685810866815041987737472474609788049251011037513723853int * 3, m, 0int, 6814333662492191907974057432600445125963212417423829364147753033112541171559int);
    assert(mod_pow(3, 9507935963251049042292942578491349586713221253098238724645733641nat, 21888242871839275222246405745257275088696311157297823662689037894645226208583nat) == 6814333662492191907974057432600445125963212417423829364147753033112541171559nat);
    lemma_fundamental_div_mod_converse(6814333662492191907974057432600445125963212417423829364147753033112541171559int * 6814333662492191907974057432600445125963212417423829364147753033112541171559int, m, 2121465095926738126137525844027222067879108471010406845957609171640473320121int, 11148632754171084530072163490958590178967970466781154316845140282633393691938int);
    lemma_fundamental_div_mod_converse(11148632754171084530072163490958590178967970466781154316845140282633393691938int * 3, m, 1int, 11557655390673978367970084727618495448207600243045639287846382953254954867231int);
    assert(mod_pow(3, 19015871926502098084585885156982699173426442506196477449291467283nat, 21888242871839275222246405745257275088696311157297823662689037894645226208583nat) == 11557655390673978367970084727618495448207600243045639287846382953254954867231nat);
    lemma_fundamental_div_mod_converse(11557655390673978367970084727618495448207600243045639287846382953254954867231int * 11557655390673978367970084727618495448207600243045639287846382953254954867231int, m, 6102792211860657092265090938876685692511950786581205069616790987338610591046int, 4035180200656338770045575382078927902534387432442470008307444219117529459543int);
    assert(mod_pow(3, 38031743853004196169171770313965398346852885012392954898582934566nat, 21888242871839275222246405745257275088696311157297823662689037894645226208583nat) == 4035180200656338770045575382078927902534387432442470008307444219117529459543nat);
    lemma_fundamental_div_mod_converse(4035180200656338770045575382078927902534387432442470008307444219117529459543int * 4035180200656338770045575382078927902534387432442470008307444219117529459543int, m, 743900702633271369993082992008556529140435422959746944455023511214703700854int, 19798633052766364002528969729105825784375661234251696971559026434704634538967int);
    assert(mod_pow(3, 76063487706008392338343540627930796693705770024785909797165869132nat, 21888242871839275222246405745257275088696311157297823662689037894645226208583nat) == 19798633052766364002528969729105825784375661234251696971559026434704634538967nat);
    lemma_fundamental_div_mod_converse(19798633052766364002528969729105825784375661234251696971559026434704634538967int * 19798633052766364002528969729105825784375661234251696971559026434704634538967int, m, 17908512485596066065727377436392019392372219506183861421043290829525214859691int, 11892906428762638199608364600109879642994844549523732089462432190360396499236int);
    lemma_fundamental_div_mod_converse(11892906428762638199608364600109879642994844549523732089462432190360396499236int * 3, m, 1int, 13790476414448639376578688055072363840288222491273372605698258676435963289125int);
    assert(mod_pow(3, 152126975412016784676687081255861593387411540049571819594331738265nat, 21888242871839275222246405745257275088696311157297823662689037894645226208583nat) == 13790476414448639376578688055072363840288222491273372605698258676435963289125nat);
    lemma_fundamental_div_mod_converse(13790476414448639376578688055072363840288222491273372605698258676435963289125int * 13790476414448639376578688055072363840288222491273372605698258676435963289125int, m, 8688556722026337502097348852835385844637773145112007527826594642813904774723int, 12966308987582712591885806760572178516114545071269508361604128874566319218116int);
    lemma_fundamental_div_mod_converse(12966308987582712591885806760572178516114545071269508361604128874566319218116int * 3, m, 1int, 17010684090908862553411014536459260459647324056510701422123348729053731445765int);
    assert(mod_pow(3, 304253950824033569353374162511723186774823080099143639188663476531nat, 21888242871839275222246405745257275088696311157297823662689037894645226208583nat) == 17010684090908862553411014536459260459647324056510701422123348729053731445765nat);
    lemma_fundamental_div_mod_converse(17010684090908862553411014536459260459647324056510701422123348729053731445765int * 17010684090908862553411014536459260459647324056510701422123348729053731445765int, m, 13220036662375749204446774461510667730304862653353674550175667566826113202898int, 946832572993746047796645478867786799120247785028948977131008077761988361691int);
    assert(mod_pow(3, 608507901648067138706748325023446373549646160198287278377326953062nat, 21888242871839275222246405745257275088696311157297823662689037894645226208583nat) == 946832572993746047796645478867786799120247785028948977131008077761988361691nat);
    lemma_fundamental_div_mod_converse(946832572993746047796645478867786799120247785028948977131008077761988361691int * 946832572993746047796645478867786799120247785028948977131008077761988361691int, m, 40957692516988457953861915250457715086533105661689922990047886737641866380int, 4468436223194190361759626837539125672946315552504659219618345772078941239941int);
    assert(mod_pow(3, 1217015803296134277413496650046892747099292320396574556754653906124nat, 21888242871839275222246405745257275088696311157297823662689037894645226208583nat) == 4468436223194190361759626837539125672946315552504659219618345772078941239941nat);
    lemma_fundamental_div_mod_converse(4468436223194190361759626837539125672946315552504659219618345772078941239941int * 4468436223194190361759626837539125672946315552504659219618345772078941239941int, m, 912221341734231867615874425528411022606234738189806778254283651678602763346int, 10700065919796249779242906864562905724358562376290522050408180282736150684763int);
    assert(mod_pow(3, 2434031606592268554826993300093785494198584640793149113509307812248nat, 21888242871839275222246405745257275088696311157297823662689037894645226208583nat) == 10700065919796249779242906864562905724358562376290522050408180282736150684763nat);
    lemma_fundamental_div_mod_converse(10700065919796249779242906864562905724358562376290522050408180282736150684763int * 10700065919796249779242906864562905724358562376290522050408180282736150684763int, m, 5230726438771666429349552864012581177179470735830771077911035303123939752281int, 14551171574736532404093245097543521488732357144244211716520998689047944338346int);
    assert(mod_pow(3, 4868063213184537109653986600187570988397169281586298227018615624496nat, 21888242871839275222246405745257275088696311157297823662689037894645226208583nat) == 14551171574736532404093245097543521488732357144244211716520998689047944338346nat);
    lemma_fundamental_div_mod_converse(14551171574736532404093245097543521488732357144244211716520998689047944338346int * 14551171574736532404093245097543521488732357144244211716520998689047944338346int, m, 9673530919644267018677745127858664080400145333564299723174378872111644741942int, 8275608138776834848787656893186416606779774310243720834309994291971625527530int);
    lemma_fundamental_div_mod_converse(8275608138776834848787656893186416606779774310243720834309994291971625527530int * 3, m, 1int, 2938581544491229324116564934301974731643011773433338840240944981269650374007int);
    assert(mod_pow(3, 9736126426369074219307973200375141976794338563172596454037231248993nat, 21888242871839275222246405745257275088696311157297823662689037894645226208583nat) == 2938581544491229324116564934301974731643011773433338840240944981269650374007nat);
    lemma_fundamental_div_mod_converse(2938581544491229324116564934301974731643011773433338840240944981269650374007int * 2938581544491229324116564934301974731643011773433338840240944981269650374007int, m, 394515975731168197182000104922059720032396475864347235911100382545421216062int, 10537234339904529525262452570711008813121248079666616740647846481701459375903int);
    assert(mod_pow(3, 19472252852738148438615946400750283953588677126345192908074462497986nat, 21888242871839275222246405745257275088696311157297823662689037894645226208583nat) == 10537234339904529525262452570711008813121248079666616740647846481701459375903nat);
    lemma_fundamental_div_mod_converse(10537234339904529525262452570711008813121248079666616740647846481701459375903int * 10537234339904529525262452570711008813121248079666616740647846481701459375903int, m, 5072737367918884295553838893905131081908373105139919063810428974298719982425int, 7774702617512440067354306255537343864346863584098954341063092248163112911634int);
    assert(mod_pow(3, 38944505705476296877231892801500567907177354252690385816148924995972nat, 21888242871839275222246405745257275088696311157297823662689037894645226208583nat) == 7774702617512440067354306255537343864346863584098954341063092248163112911634nat);
    lemma_fundamental_div_mod_converse(7774702617512440067354306255537343864346863584098954341063092248163112911634int * 7774702617512440067354306255537343864346863584098954341063092248163112911634int, m, 2761573925539848163200035511279012939909878191494784740890584525684783812642int, 8300388516053557624865903998777112300729840306194649497817951252712008243670int);
    lemma_fundamental_div_mod_converse(8300388516053557624865903998777112300729840306194649497817951252712008243670int * 3, m, 1int, 3012922676321397652351306251074061813493209761286124830764815863490798522427int);
    assert(mod_pow(3, 77889011410952593754463785603001135814354708505380771632297849991945nat, 21888242871839275222246405745257275088696311157297823662689037894645226208583nat) == 3012922676321397652351306251074061813493209761286124830764815863490798522427nat);
    lemma_fundamental_div_mod_converse(3012922676321397652351306251074061813493209761286124830764815863490798522427int * 3012922676321397652351306251074061813493209761286124830764815863490798522427int, m, 414729638493310978948223404518850534689523039211043121580921548125476997853int, 12775644747905143690022714980465224529486320588404853482902972963458000798030int);
    assert(mod_pow(3, 155778022821905187508927571206002271628709417010761543264595699983890nat, 21888242871839275222246405745257275088696311157297823662689037894645226208583nat) == 12775644747905143690022714980465224529486320588404853482902972963458000798030nat);
    lemma_fundamental_div_mod_converse(12775644747905143690022714980465224529486320588404853482902972963458000798030int * 12775644747905143690022714980465224529486320588404853482902972963458000798030int, m, 7456838800645175024272964814894279864605424790449477476576307482094347882078int, 19716957388232320751643876503170064929841905326641153672655348797092936405426int);
    assert(mod_pow(3, 311556045643810375017855142412004543257418834021523086529191399967780nat, 21888242871839275222246405745257275088696311157297823662689037894645226208583nat) == 19716957388232320751643876503170064929841905326641153672655348797092936405426nat);
    lemma_fundamental_div_mod_converse(19716957388232320751643876503170064929841905326641153672655348797092936405426int * 19716957388232320751643876503170064929841905326641153672655348797092936405426int, m, 17761060626275005351050868249966535512706600777536825015516044333170326086862int, 10071664464780553034159346228813393915335393585265789413618406481758854304930int);
    assert(mod_pow(3, 623112091287620750035710284824009086514837668043046173058382799935560nat, 21888242871839275222246405745257275088696311157297823662689037894645226208583nat) == 10071664464780553034159346228813393915335393585265789413618406481758854304930nat);
    lemma_fundamental_div_mod_converse(10071664464780553034159346228813393915335393585265789413618406481758854304930int * 10071664464780553034159346228813393915335393585265789413618406481758854304930int, m, 4634379547278819295083687386485247961926203703375606934637800113107225244124int, 6011366963255553916502410423655887093500735038051210543964016305278303188608int);
    lemma_fundamental_div_mod_converse(6011366963255553916502410423655887093500735038051210543964016305278303188608int * 3, m, 0int, 18034100889766661749507231270967661280502205114153631631892048915834909565824int);
    assert(mod_pow(3, 1246224182575241500071420569648018173029675336086092346116765599871121nat, 21888242871839275222246405745257275088696311157297823662689037894645226208583nat) == 18034100889766661749507231270967661280502205114153631631892048915834909565824nat);
    lemma_fundamental_div_mod_converse(18034100889766661749507231270967661280502205114153631631892048915834909565824int * 18034100889766661749507231270967661280502205114153631631892048915834909565824int, m, 14858606824064065843842068262577118969473836754105458882300691195676717908042int, 8219338891199720746764482536878353682667932092572401877791544705261283674490int);
    lemma_fundamental_div_mod_converse(8219338891199720746764482536878353682667932092572401877791544705261283674490int * 3, m, 1int, 2769773801759887018047041865377785959307485120419381970685596221138624814887int);
    assert(mod_pow(3, 2492448365150483000142841139296036346059350672172184692233531199742243nat, 21888242871839275222246405745257275088696311157297823662689037894645226208583nat) == 2769773801759887018047041865377785959307485120419381970685596221138624814887nat);
    lemma_fundamental_div_mod_converse(2769773801759887018047041865377785959307485120419381970685596221138624814887int * 2769773801759887018047041865377785959307485120419381970685596221138624814887int, m, 350491675272185393850168197882058091448334999417056682731908912130618056912int, 11222278902898950411928613554931676807587236024471829640756914698646739947073int);
    assert(mod_pow(3, 4984896730300966000285682278592072692118701344344369384467062399484486nat, 21888242871839275222246405745257275088696311157297823662689037894645226208583nat) == 11222278902898950411928613554931676807587236024471829640756914698646739947073nat);
    lemma_fundamental_div_mod_converse(11222278902898950411928613554931676807587236024471829640756914698646739947073int * 11222278902898950411928613554931676807587236024471829640756914698646739947073int, m, 5753753031335408181296789779979300694976638635133860112874673108054895072076int, 15803436164258876306484896769561323600025368382005081582870243914498846439021int);
    lemma_fundamental_div_mod_converse(15803436164258876306484896769561323600025368382005081582870243914498846439021int * 3, m, 2int, 3633822749098078474961878818169420622683482831419597423232655954206086899897int);
    assert(mod_pow(3, 9969793460601932000571364557184145384237402688688738768934124798968973nat, 21888242871839275222246405745257275088696311157297823662689037894645226208583nat) == 3633822749098078474961878818169420622683482831419597423232655954206086899897nat);
    lemma_fundamental_div_mod_converse(3633822749098078474961878818169420622683482831419597423232655954206086899897int * 3633822749098078474961878818169420622683482831419597423232655954206086899897int, m, 603276738529405975596352824921600172982331923980668983193023525415733832460int, 15537920250280942792704382999282583528055448988200434046244364972310162606429int);
    assert(mod_pow(3, 19939586921203864001142729114368290768474805377377477537868249597937946nat, 21888242871839275222246405745257275088696311157297823662689037894645226208583nat) == 15537920250280942792704382999282583528055448988200434046244364972310162606429nat);
    lemma_fundamental_div_mod_converse(15537920250280942792704382999282583528055448988200434046244364972310162606429int * 15537920250280942792704382999282583528055448988200434046244364972310162606429int, m, 11029983864748820739468281583225910075208221385610653935618023164819889760315int, 14988284564052448359065867624566395414787829315954929987323697676758686348396int);
    lemma_fundamental_div_mod_converse(14988284564052448359065867624566395414787829315954929987323697676758686348396int * 3, m, 2int, 1188367948478794632704791383184636066970865633269142636593017240985606628022int);
    assert(mod_pow(3, 39879173842407728002285458228736581536949610754754955075736499195875893nat, 21888242871839275222246405745257275088696311157297823662689037894645226208583nat) == 1188367948478794632704791383184636066970865633269142636593017240985606628022nat);
    lemma_fundamental_div_mod_converse(1188367948478794632704791383184636066970865633269142636593017240985606628022int * 1188367948478794632704791383184636066970865633269142636593017240985606628022int, m, 64519495202998448166987863461888812142661063578053713525700271955521297820int, 13144742294223824113098325369726524088556624104290251940094022475190892443424int);
    assert(mod_pow(3, 79758347684815456004570916457473163073899221509509910151472998391751786nat, 21888242871839275222246405745257275088696311157297823662689037894645226208583nat) == 13144742294223824113098325369726524088556624104290251940094022475190892443424nat);
    lemma_fundamental_div_mod_converse(13144742294223824113098325369726524088556624104290251940094022475190892443424int * 13144742294223824113098325369726524088556624104290251940094022475190892443424int, m, 7893929676915975016630659449573728953783866413140077468793624256316035229960int, 4650908241440587285281640871577429997252253799704365547741327062637710097096int);
    assert(mod_pow(3, 159516695369630912009141832914946326147798443019019820302945996783503572nat, 21888242871839275222246405745257275088696311157297823662689037894645226208583nat) == 4650908241440587285281640871577429997252253799704365547741327062637710097096nat);
    lemma_fundamental_div_mod_converse(4650908241440587285281640871577429997252253799704365547741327062637710097096int * 4650908241440587285281640871577429997252253799704365547741327062637710097096int, m, 988245040817308947198435211629906692192393663902980715799941136475280953476int, 11425476279647635483436339398522394599880542959822069030562274387157052748708int);
    lemma_fundamental_div_mod_converse(11425476279647635483436339398522394599880542959822069030562274387157052748708int * 3, m, 1int, 12388185967103631228062612450309908710945317722168383428997785266825932037541int);
    assert(mod_pow(3, 319033390739261824018283665829892652295596886038039640605891993567007145nat, 21888242871839275222246405745257275088696311157297823662689037894645226208583nat) == 12388185967103631228062612450309908710945317722168383428997785266825932037541nat);
    lemma_fundamental_div_mod_converse(12388185967103631228062612450309908710945317722168383428997785266825932037541int * 12388185967103631228062612450309908710945317722168383428997785266825932037541int, m, 7011396595612037034556862155923448836953207807725261473549153843166249399376int, 16584742061388640527475706154671787214685776624073045478954614197050387282473int);
    assert(mod_pow(3, 638066781478523648036567331659785304591193772076079281211783987134014290nat, 21888242871839275222246405745257275088696311157297823662689037894645226208583nat) == 16584742061388640527475706154671787214685776624073045478954614197050387282473nat);
    lemma_fundamental_div_mod_converse(16584742061388640527475706154671787214685776624073045478954614197050387282473int * 16584742061388640527475706154671787214685776624073045478954614197050387282473int, m, 12566274545348221280917168500401513209490124449166396660863018917030410452666int, 5991057471090828612759465282492793927108935393500761880983305507037928563451int);
    assert(mod_pow(3, 1276133562957047296073134663319570609182387544152158562423567974268028580nat, 21888242871839275222246405745257275088696311157297823662689037894645226208583nat) == 5991057471090828612759465282492793927108935393500761880983305507037928563451nat);
    lemma_fundamental_div_mod_converse(5991057471090828612759465282492793927108935393500761880983305507037928563451int * 5991057471090828612759465282492793927108935393500761880983305507037928563451int, m, 1639819597766422040984449432716408788664719880763799509582193595019101491193int, 2910746674282627615655813524374457450868047440677733637007349071715577519882int);
    assert(mod_pow(3, 2552267125914094592146269326639141218364775088304317124847135948536057160nat, 21888242871839275222246405745257275088696311157297823662689037894645226208583nat) == 2910746674282627615655813524374457450868047440677733637007349071715577519882nat);
    lemma_fundamental_div_mod_converse(2910746674282627615655813524374457450868047440677733637007349071715577519882int * 2910746674282627615655813524374457450868047440677733637007349071715577519882int, m, 387077494134888271025922192618406617725551161427283546765145338202812163125int, 10457366838396499492379985509693671034380660308832040770492428332813434192049int);
    lemma_fundamental_div_mod_converse(10457366838396499492379985509693671034380660308832040770492428332813434192049int * 3, m, 1int, 9483857643350223254893550783823738014445669769198298648788247103795076367564int);
    assert(mod_pow(3, 5104534251828189184292538653278282436729550176608634249694271897072114321nat, 21888242871839275222246405745257275088696311157297823662689037894645226208583nat) == 9483857643350223254893550783823738014445669769198298648788247103795076367564nat);
    lemma_fundamental_div_mod_converse(9483857643350223254893550783823738014445669769198298648788247103795076367564int * 9483857643350223254893550783823738014445669769198298648788247103795076367564int, m, 4109217735108878937228206956273305476495391610793985977870371806424978364279int, 1430971385826350340560159733007636361625576743960131243826186405220620887439int);
    assert(mod_pow(3, 10209068503656378368585077306556564873459100353217268499388543794144228642nat, 21888242871839275222246405745257275088696311157297823662689037894645226208583nat) == 1430971385826350340560159733007636361625576743960131243826186405220620887439nat);
    lemma_fundamental_div_mod_converse(1430971385826350340560159733007636361625576743960131243826186405220620887439int * 1430971385826350340560159733007636361625576743960131243826186405220620887439int, m, 93551552723689170002739559348903860877631243947152847892684004396397645508int, 183990545764569103371767994226046300663979092973907561179073178017006983557int);
    assert(mod_pow(3, 20418137007312756737170154613113129746918200706434536998777087588288457284nat, 21888242871839275222246405745257275088696311157297823662689037894645226208583nat) == 183990545764569103371767994226046300663979092973907561179073178017006983557nat);
    lemma_fundamental_div_mod_converse(183990545764569103371767994226046300663979092973907561179073178017006983557int * 183990545764569103371767994226046300663979092973907561179073178017006983557int, m, 1546607515685856456393144475352203848695069754688569146082629777075002418int, 3734679673465655779061161709968838009416285900619429201740915787916371018555int);
    assert(mod_pow(3, 40836274014625513474340309226226259493836401412869073997554175176576914568nat, 21888242871839275222246405745257275088696311157297823662689037894645226208583nat) == 3734679673465655779061161709968838009416285900619429201740915787916371018555nat);
    lemma_fundamental_div_mod_converse(3734679673465655779061161709968838009416285900619429201740915787916371018555int * 3734679673465655779061161709968838009416285900619429201740915787916371018555int, m, 637229417869004895384426666545800674939540878964893810735974954447049782830int, 12962999164536722236732992640894572958704174031844186708818072592273722258135int);
    assert(mod_pow(3, 81672548029251026948680618452452518987672802825738147995108350353153829136nat, 21888242871839275222246405745257275088696311157297823662689037894645226208583nat) == 12962999164536722236732992640894572958704174031844186708818072592273722258135nat);
    lemma_fundamental_div_mod_converse(12962999164536722236732992640894572958704174031844186708818072592273722258135int * 12962999164536722236732992640894572958704174031844186708818072592273722258135int, m, 7677151077118844348552363374680309137232542811756039618282471175665457920270int, 6520803607931333138180095680995605153446430238187507965042249166183170000815int);
    lemma_fundamental_div_mod_converse(6520803607931333138180095680995605153446430238187507965042249166183170000815int * 3, m, 0int, 19562410823793999414540287042986815460339290714562523895126747498549510002445int);
    assert(mod_pow(3, 163345096058502053897361236904905037975345605651476295990216700706307658273nat, 21888242871839275222246405745257275088696311157297823662689037894645226208583nat) == 19562410823793999414540287042986815460339290714562523895126747498549510002445nat);
    lemma_fundamental_div_mod_converse(19562410823793999414540287042986815460339290714562523895126747498549510002445int * 19562410823793999414540287042986815460339290714562523895126747498549510002445int, m, 17483720346106304383549126149493890779936376214109311202344349341974820485274int, 21416043524944433016670818817864259343946572146370358017997215485720702071283int);
    assert(mod_pow(3, 326690192117004107794722473809810075950691211302952591980433401412615316546nat, 21888242871839275222246405745257275088696311157297823662689037894645226208583nat) == 21416043524944433016670818817864259343946572146370358017997215485720702071283nat);
}

#[verifier::rlimit(100)]
pub proof fn lemma_pow_base_modulus_by_229()
    ensures
        mod_pow(3, 95581846601918232411556356966188974186446773612654251802135536657839415758nat, 21888242871839275222246405745257275088696311157297823662689037894645226208583nat) == 10247490365858481317912223827250247247828105120952384175173060052493082761774nat,
{
    let m = 21888242871839275222246405745257275088696311157297823662689037894645226208583int;
    lemma_fundamental_div_mod_converse(1, m, 0, 1);
    assert(mod_pow(3, 0, 21888242871839275222246405745257275088696311157297823662689037894645226208583nat) == 1);
    lemma_fundamental_div_mod_converse(1int * 1int, m, 0int, 1int);
    lemma_fundamental_div_mod_converse(1int * 3, m, 0int, 3int);
    assert(mod_pow(3, 1, 21888242871839275222246405745257275088696311157297823662689037894645226208583nat) == 3);
    lemma_fundamental_div_mod_converse(3int * 3int, m, 0int, 9int);
    lemma_fundamental_div_mod_converse(9int * 3, m, 0int, 27int);
    assert(mod_pow(3, 3, 21888242871839275222246405745257275088696311157297823662689037894645226208583nat) == 27);
    lemma_fundamental_div_mod_converse(27int * 27int, m, 0int, 729int);
    assert(mod_pow(3, 6, 21888242871839275222246405745257275088696311157297823662689037894645226208583nat) == 729);
    lemma_fundamental_div_mod_converse(729int * 729int, m, 0int, 531441int);
    lemma_fundamental_div_mod_converse(531441int * 3, m, 0int, 1594323int);
    assert(mod_pow(3, 13, 21888242871839275222246405745257275088696311157297823662689037894645226208583nat) == 1594323);
    lemma_fundamental_div_mod_converse(1594323int * 1594323int, m, 0int, 2541865828329int);
    lemma_fundamental_div_mod_converse(2541865828329int * 3, m, 0int, 7625597484987int);
    assert(mod_pow(3, 27, 21888242871839275222246405745257275088696311157297823662689037894645226208583nat) == 7625597484987);
    lemma_fundamental_div_mod_converse(7625597484987int * 7625597484987int, m, 0int, 58149737003040059690390169int);
    assert(mod_pow(3, 54, 21888242871839275222246405745257275088696311157297823662689037894645226208583nat) == 58149737003040059690390169nat);
    lemma_fundamental_div_mod_converse(58149737003040059690390169int * 58149737003040059690390169int, m, 0int, 3381391913522726342930221472392241170198527451848561int);
    assert(mod_pow(3, 108, 21888242871839275222246405745257275088696311157297823662689037894645226208583nat) == 3381391913522726342930221472392241170198527451848561nat);
    lemma_fundamental_div_mod_converse(3381391913522726342930221472392241170198527451848561int * 3381391913522726342930221472392241170198527451848561int, m, 522372277198516777990512631int, 11380601396801303688060533114598553296562191204485803629311651985971375658848int);
    assert(mod_pow(3, 216, 21888242871839275222246405745257275088696311157297823662689037894645226208583nat) == 11380601396801303688060533114598553296562191204485803629311651985971375658848nat);
    lemma_fundamental_div_mod_converse(11380601396801303688060533114598553296562191204485803629311651985971375658848int * 11380601396801303688060533114598553296562191204485803629311651985971375658848int, m, 5917244655554771952310374341096747005297192092321472689660810162731188488073int, 6619497318776187437206605291774515003687729923087736404870662535508174956545int);
    assert(mod_pow(3, 432, 21888242871839275222246405745257275088696311157297823662689037894645226208583nat) == 6619497318776187437206605291774515003687729923087736404870662535508174956545nat);
    lemma_fundamental_div_mod_converse(6619497318776187437206605291774515003687729923087736404870662535508174956545int * 6619497318776187437206605291774515003687729923087736404870662535508174956545int, m, 2001884985005336656866320124437528647175794918422250862837178797840158497749int, 4715869109178757119127849062267019388253781076159398460556872241136428357358int);
    lemma_fundamental_div_mod_converse(4715869109178757119127849062267019388253781076159398460556872241136428357358int * 3, m, 0int, 14147607327536271357383547186801058164761343228478195381670616723409285072074int);
    assert(mod_pow(3, 865, 21888242871839275222246405745257275088696311157297823662689037894645226208583nat) == 14147607327536271357383547186801058164761343228478195381670616723409285072074nat);
    lemma_fundamental_div_mod_converse(14147607327536271357383547186801058164761343228478195381670616723409285072074int * 14147607327536271357383547186801058164761343228478195381670616723409285072074int, m, 9144397486180622518857433709307291408604355771443013402851370561383318345475int, 15430301584274054253708600901248947954029580084735279435486459782476570449551int);
    lemma_fundamental_div_mod_converse(15430301584274054253708600901248947954029580084735279435486459782476570449551int * 3, m, 2int, 2514419009143612316632991213232293684696117939610190981081303558139258931487int);
    assert(mod_pow(3, 1731, 21888242871839275222246405745257275088696311157297823662689037894645226208583nat) == 2514419009143612316632991213232293684696117939610190981081303558139258931487nat);
    lemma_fundamental_div_mod_converse(2514419009143612316632991213232293684696117939610190981081303558139258931487int * 2514419009143612316632991213232293684696117939610190981081303558139258931487int, m, 288844700351750083551750303517362528988486049479887238195778102789085139203int, 15877889926905174807079820724572253413330020075479596110429490925760491651820int);
    assert(mod_pow(3, 3462, 21888242871839275222246405745257275088696311157297823662689037894645226208583nat) == 15877889926905174807079820724572253413330020075479596110429490925760491651820nat);
    lemma_fundamental_div_mod_converse(15877889926905174807079820724572253413330020075479596110429490925760491651820int * 15877889926905174807079820724572253413330020075479596110429490925760491651820int, m, 11517936364607423711905725097073777507163216547032114183818254278449233200341int, 13049808736350283195152897206776535854172644009821754518787194934281416585597int);
    assert(mod_pow(3, 6924, 21888242871839275222246405745257275088696311157297823662689037894645226208583nat) == 13049808736350283195152897206776535854172644009821754518787194934281416585597nat);
    lemma_fundamental_div_mod_converse(13049808736350283195152897206776535854172644009821754518787194934281416585597int * 13049808736350283195152897206776535854172644009821754518787194934281416585597int, m, 7780318824697600198961958384878775592554679426670951440389922917115661595625int, 20582330094428326458545045975325798362077771510655337635975522660294777597034int);
    assert(mod_pow(3, 13848, 21888242871839275222246405745257275088696311157297823662689037894645226208583nat) == 20582330094428326458545045975325798362077771510655337635975522660294777597034nat);
    lemma_fundamental_div_mod_converse(20582330094428326458545045975325798362077771510655337635975522660294777597034int * 20582330094428326458545045975325798362077771510655337635975522660294777597034int, m, 19354331665473338165507829441988476133411049678239948066503960438973523542549int, 17283409548666911719966254775913424000091937322129088652832117107957136099089int);
    lemma_fundamental_div_mod_converse(17283409548666911719966254775913424000091937322129088652832117107957136099089int * 3, m, 2int, 8073742902322184715405952837225721822883189651791618633118275534580955880101int);
    assert(mod_pow(3, 27697, 21888242871839275222246405745257275088696311157297823662689037894645226208583nat) == 8073742902322184715405952837225721822883189651791618633118275534580955880101nat);
    lemma_fundamental_div_mod_converse(8073742902322184715405952837225721822883189651791618633118275534580955880101int * 8073742902322184715405952837225721822883189651791618633118275534580955880101int, m, 2978097640567724270808975581064405987385350506441965138764101017257482561003int, 16447436447889620574987604652546274623837539627116259747588659286720788081452int);
    lemma_fundamental_div_mod_converse(16447436447889620574987604652546274623837539627116259747588659286720788081452int * 3, m, 2int, 5565823599990311280470002467124273694119996566753131917387902070871911827190int);
    assert(mod_pow(3, 55395, 21888242871839275222246405745257275088696311157297823662689037894645226208583nat) == 5565823599990311280470002467124273694119996566753131917387902070871911827190nat);
    lemma_fundamental_div_mod_converse(5565823599990311280470002467124273694119996566753131917387902070871911827190int * 5565823599990311280470002467124273694119996566753131917387902070871911827190int, m, 1415298273488409330038517756435577782909684897946717047808713339138765161680int, 11438412188623729188123154422156576853070000670923503500636791282611024596660int);
    lemma_fundamental_div_mod_converse(11438412188623729188123154422156576853070000670923503500636791282611024596660int * 3, m, 1int, 12426993694031912342123057521212455470513690855472686839221335953187847581397int);
    assert(mod_pow(3, 110791, 21888242871839275222246405745257275088696311157297823662689037894645226208583nat) == 12426993694031912342123057521212455470513690855472686839221335953187847581397nat);
    lemma_fundamental_div_mod_converse(12426993694031912342123057521212455470513690855472686839221335953187847581397int * 12426993694031912342123057521212455470513690855472686839221335953187847581397int, m, 7055393764393665266864245427485441316820255601467970441101516947730742373111int, 9533162688405637670265157797555403353769468313226277394595691330348043859896int);
    assert(mod_pow(3, 221582, 21888242871839275222246405745257275088696311157297823662689037894645226208583nat) == 9533162688405637670265157797555403353769468313226277394595691330348043859896nat);
    lemma_fundamental_div_mod_converse(9533162688405637670265157797555403353769468313226277394595691330348043859896int * 9533162688405637670265157797555403353769468313226277394595691330348043859896int, m, 4152055118162741450335731674690521837887371213604320044914312102902665191039int, 2482003835758406438243743041168861632573493927060157460641689605363120643079int);
    lemma_fundamental_div_mod_converse(2482003835758406438243743041168861632573493927060157460641689605363120643079int * 3, m, 0int, 7446011507275219314731229123506584897720481781180472381925068816089361929237int);
    assert(mod_pow(3, 443165, 21888242871839275222246405745257275088696311157297823662689037894645226208583nat) == 7446011507275219314731229123506584897720481781180472381925068816089361929237nat);
    lemma_fundamental_div_mod_converse(7446011507275219314731229123506584897720481781180472381925068816089361929237int * 7446011507275219314731229123506584897720481781180472381925068816089361929237int, m, 2533007683216377119286362508135480953252943751686348404974932639459180593913int, 20609628485758078795992979326184947702192135008998623835933567756583437246890int);
    lemma_fundamental_div_mod_converse(20609628485758078795992979326184947702192135008998623835933567756583437246890int * 3, m, 2int, 18052399713595685943486126488040292929183782712400224182422627480459859323504int);
    assert(mod_pow(3, 886331, 21888242871839275222246405745257275088696311157297823662689037894645226208583nat) == 18052399713595685943486126488040292929183782712400224182422627480459859323504nat);
    lemma_fundamental_div_mod_converse(18052399713595685943486126488040292929183782712400224182422627480459859323504int * 18052399713595685943486126488040292929183782712400224182422627480459859323504int, m, 14888775555332872999654233400810696426954901877623030039581378537635054539776int, 16582290040854836660434753637661352628660202914692327060281689495466080740608int);
    lemma_fundamental_div_mod_converse(16582290040854836660434753637661352628660202914692327060281689495466080740608int * 3, m, 2int, 5970384378885959536811449422469507708587986429481333855466992697107789804658int);
    assert(mod_pow(3, 1772663, 21888242871839275222246405745257275088696311157297823662689037894645226208583nat) == 5970384378885959536811449422469507708587986429481333855466992697107789804658nat);
    lemma_fundamental_div_mod_converse(5970384378885959536811449422469507708587986429481333855466992697107789804658int * 5970384378885959536811449422469507708587986429481333855466992697107789804658int, m, 1628522208948341420392263910706395755206632177031011994080629370374937150957int, 7291421216974166212400233911101562541492909450675948503077283603312758433033int);
    lemma_fundamental_div_mod_converse(7291421216974166212400233911101562541492909450675948503077283603312758433033int * 3, m, 0int, 21874263650922498637200701733304687624478728352027845509231850809938275299099int);
    assert(mod_pow(3, 3545327, 21888242871839275222246405745257275088696311157297823662689037894645226208583nat) == 21874263650922498637200701733304687624478728352027845509231850809938275299099nat);
    lemma_fundamental_div_mod_converse(21874263650922498637200701733304687624478728352027845509231850809938275299099int * 21874263650922498637200701733304687624478728352027845509231850809938275299099int, m, 21860293358023315070708037100193037626538915652203735070690310473542874600734int, 12276725582433300332193982819197432454943656271700732080950254758709181311879int);
    lemma_fundamental_div_mod_converse(12276725582433300332193982819197432454943656271700732080950254758709181311879int * 3, m, 1int, 14941933875460625774335542712335022276134657657804372580161726381482317727054int);
    assert(mod_pow(3, 7090655, 21888242871839275222246405745257275088696311157297823662689037894645226208583nat) == 14941933875460625774335542712335022276134657657804372580161726381482317727054nat);
    lemma_fundamental_div_mod_converse(14941933875460625774335542712335022276134657657804372580161726381482317727054int * 14941933875460625774335542712335022276134657657804372580161726381482317727054int, m, 10200059878990052432054396491853640175812296085521796472478607723840193351458int, 10985481348184262454491389877772386434133409547076935984439206379647508354902int);
    assert(mod_pow(3, 14181310, 21888242871839275222246405745257275088696311157297823662689037894645226208583nat) == 10985481348184262454491389877772386434133409547076935984439206379647508354902nat);
    lemma_fundamental_div_mod_converse(10985481348184262454491389877772386434133409547076935984439206379647508354902int * 10985481348184262454491389877772386434133409547076935984439206379647508354902int, m, 5513498783704033293065573230990562748279060779574791880066164959632480482674int, 3815975478080164869037305008297960796972558166640758362266633892403545838662int);
    lemma_fundamental_div_mod_converse(3815975478080164869037305008297960796972558166640758362266633892403545838662int * 3, m, 0int, 11447926434240494607111915024893882390917674499922275086799901677210637515986int);
    assert(mod_pow(3, 28362621, 21888242871839275222246405745257275088696311157297823662689037894645226208583nat) == 11447926434240494607111915024893882390917674499922275086799901677210637515986nat);
    lemma_fundamental_div_mod_converse(11447926434240494607111915024893882390917674499922275086799901677210637515986int * 11447926434240494607111915024893882390917674499922275086799901677210637515986int, m, 5987461872163048382258065607687333877816232393484174848628358053146999622731int, 2174505156691008858043275004420290874036371243583025153003033533897891452023int);
    lemma_fundamental_div_mod_converse(2174505156691008858043275004420290874036371243583025153003033533897891452023int * 3, m, 0int, 6523515470073026574129825013260872622109113730749075459009100601693674356069int);
    assert(mod_pow(3, 56725243, 21888242871839275222246405745257275088696311157297823662689037894645226208583nat) == 6523515470073026574129825013260872622109113730749075459009100601693674356069nat);
    lemma_fundamental_div_mod_converse(6523515470073026574129825013260872622109113730749075459009100601693674356069int * 6523515470073026574129825013260872622109113730749075459009100601693674356069int, m, 1944251730824571522026612115136755323534412016831119570832871008586674910423int, 12290938657028154031760782773754917276456482766476431714633848256738358372152int);
    lemma_fundamental_div_mod_converse(12290938657028154031760782773754917276456482766476431714633848256738358372152int * 3, m, 1int, 14984573099245186873035942576007476740673137142131471481212506875569848907873int);
    assert(mod_pow(3, 113450487, 21888242871839275222246405745257275088696311157297823662689037894645226208583nat) == 14984573099245186873035942576007476740673137142131471481212506875569848907873nat);
    lemma_fundamental_div_mod_converse(14984573099245186873035942576007476740673137142131471481212506875569848907873int * 14984573099245186873035942576007476740673137142131471481212506875569848907873int, m, 10258357981558460356598310001751527374607199357156476696488108375962476901615int, 20557999247488237581553418118054282254080517686097666408916728041291281822584int);
    assert(mod_pow(3, 226900974, 21888242871839275222246405745257275088696311157297823662689037894645226208583nat) == 20557999247488237581553418118054282254080517686097666408916728041291281822584nat);
    lemma_fundamental_div_mod_converse(20557999247488237581553418118054282254080517686097666408916728041291281822584int * 20557999247488237581553418118054282254080517686097666408916728041291281822584int, m, 19308600308134881023187911826649287975862712808728734419688698080666980584179int, 721769364103233990993279095355948641161313578316396537792002861566208628699int);
    lemma_fundamental_div_mod_converse(721769364103233990993279095355948641161313578316396537792002861566208628699int * 3, m, 0int, 2165308092309701972979837286067845923483940734949189613376008584698625886097int);
    assert(mod_pow(3, 453801949, 21888242871839275222246405745257275088696311157297823662689037894645226208583nat) == 2165308092309701972979837286067845923483940734949189613376008584698625886097nat);
    lemma_fundamental_div_mod_converse(2165308092309701972979837286067845923483940734949189613376008584698625886097int * 2165308092309701972979837286067845923483940734949189613376008584698625886097int, m, 214204454970391138298681213240490139918256112937351896088855305670446647733int, 17984121843665572863679338787845696680939700183595567966702616329872635801070int);
    lemma_fundamental_div_mod_converse(17984121843665572863679338787845696680939700183595567966702616329872635801070int * 3, m, 2int, 10175879787318168146545204873022539865426478236191056574729773200327454986044int);
    assert(mod_pow(3, 907603899, 21888242871839275222246405745257275088696311157297823662689037894645226208583nat) == 10175879787318168146545204873022539865426478236191056574729773200327454986044nat);
    lemma_fundamental_div_mod_converse(10175879787318168146545204873022539865426478236191056574729773200327454986044int * 10175879787318168146545204873022539865426478236191056574729773200327454986044int, m, 4730783099047787331856930373105943439022863276256259492625959145889997539279int, 20118334485023864611854732857117070136650645745150506567356691606887445338279int);
    lemma_fundamental_div_mod_converse(20118334485023864611854732857117070136650645745150506567356691606887445338279int * 3, m, 2int, 16578517711393043391071387080836660232559314920855872376691999031371883597671int);
    assert(mod_pow(3, 1815207799, 21888242871839275222246405745257275088696311157297823662689037894645226208583nat) == 16578517711393043391071387080836660232559314920855872376691999031371883597671nat);
    lemma_fundamental_div_mod_converse(16578517711393043391071387080836660232559314920855872376691999031371883597671int * 16578517711393043391071387080836660232559314920855872376691999031371883597671int, m, 12556843923757016556839304062897959586296226544833289730730941734333875328141int, 19786675657909767874631520105028251859441846687639074364386733726903760990038int);
    assert(mod_pow(3, 3630415598, 21888242871839275222246405745257275088696311157297823662689037894645226208583nat) == 19786675657909767874631520105028251859441846687639074364386733726903760990038nat);
    lemma_fundamental_div_mod_converse(19786675657909767874631520105028251859441846687639074364386733726903760990038int * 19786675657909767874631520105028251859441846687639074364386733726903760990038int, m, 17886887306747982769454559743577804200454941816896340826203194801129367256819int, 20540561793601272432025850277190191574144388359064950598873949489359312163967int);
    lemma_fundamental_div_mod_converse(20540561793601272432025850277190191574144388359064950598873949489359312163967int * 3, m, 2int, 17845199637125266851584739341056024545040542762599204471243772678787484074735int);
    assert(mod_pow(3, 7260831197, 21888242871839275222246405745257275088696311157297823662689037894645226208583nat) == 17845199637125266851584739341056024545040542762599204471243772678787484074735nat);
    lemma_fundamental_div_mod_converse(17845199637125266851584739341056024545040542762599204471243772678787484074735int * 17845199637125266851584739341056024545040542762599204471243772678787484074735int, m, 14548959089747902443419022616762947411608345542511079717205497112760310441572int, 3083240248771382205616525482944672361116074136816524488068083395670958907749int);
    assert(mod_pow(3, 14521662394, 21888242871839275222246405745257275088696311157297823662689037894645226208583nat) == 3083240248771382205616525482944672361116074136816524488068083395670958907749nat);
    lemma_fundamental_div_mod_converse(3083240248771382205616525482944672361116074136816524488068083395670958907749int * 3083240248771382205616525482944672361116074136816524488068083395670958907749int, m, 434314005345509575012505687559562147051069515897639923952237802270327293007int, 2534563206216403802465440072151565649098874377809946928717395430318752967920int);
    lemma_fundamental_div_mod_converse(2534563206216403802465440072151565649098874377809946928717395430318752967920int * 3, m, 0int, 7603689618649211407396320216454696947296623133429840786152186290956258903760int);
    assert(mod_pow(3, 29043324789, 21888242871839275222246405745257275088696311157297823662689037894645226208583nat) == 7603689618649211407396320216454696947296623133429840786152186290956258903760nat);
    lemma_fundamental_div_mod_converse(7603689618649211407396320216454696947296623133429840786152186290956258903760int * 7603689618649211407396320216454696947296623133429840786152186290956258903760int, m, 2641422436477902950193967526238510032662565744215389998493165450432029287178int, 20955408231378915655210238016548855714351427388124918679997992375599906688826int);
    lemma_fundamental_div_mod_converse(20955408231378915655210238016548855714351427388124918679997992375599906688826int * 3, m, 2int, 19089738950458196521137902559132016965661659849779108714615901337509267649312int);
    assert(mod_pow(3, 58086649579, 21888242871839275222246405745257275088696311157297823662689037894645226208583nat) == 19089738950458196521137902559132016965661659849779108714615901337509267649312nat);
    lemma_fundamental_div_mod_converse(19089738950458196521137902559132016965661659849779108714615901337509267649312int * 19089738950458196521137902559132016965661659849779108714615901337509267649312int, m, 16649035526990141074478962090267627515851522723873262303092459563094141349018int, 12574452179019982794928445030179410431197665793741008226414215904997143851850int);
    assert(mod_pow(3, 116173299158, 21888242871839275222246405745257275088696311157297823662689037894645226208583nat) == 12574452179019982794928445030179410431197665793741008226414215904997143851850nat);
    lemma_fundamental_div_mod_converse(12574452179019982794928445030179410431197665793741008226414215904997143851850int * 12574452179019982794928445030179410431197665793741008226414215904997143851850int, m, 7223825527168677205814875121491812497997011823422936215836532485022894426780int, 16461065784167033983869618805749954720969995453534134232809701818314247369760int);
    assert(mod_pow(3, 232346598316, 21888242871839275222246405745257275088696311157297823662689037894645226208583nat) == 16461065784167033983869618805749954720969995453534134232809701818314247369760nat);
    lemma_fundamental_div_mod_converse(16461065784167033983869618805749954720969995453534134232809701818314247369760int * 16461065784167033983869618805749954720969995453534134232809701818314247369760int, m, 12379554098391875269505338824385570891939957331406113596027621025564750078769int, 14123572653471806093933564794640731398031666767016114871888174579005688583273int);
    assert(mod_pow(3, 464693196632, 21888242871839275222246405745257275088696311157297823662689037894645226208583nat) == 14123572653471806093933564794640731398031666767016114871888174579005688583273nat);
    lemma_fundamental_div_mod_converse(14123572653471806093933564794640731398031666767016114871888174579005688583273int * 14123572653471806093933564794640731398031666767016114871888174579005688583273int, m, 9113353943752848517278633070787096089853081130785258959996732365648095368614int, 15497484881135563807216964668970948984054110328982243948209528911640819778567int);
    lemma_fundamental_div_mod_converse(15497484881135563807216964668970948984054110328982243948209528911640819778567int * 3, m, 2int, 2715968899728140977158082516398296774769708672351084519250510945632006918535int);
    assert(mod_pow(3, 929386393265, 21888242871839275222246405745257275088696311157297823662689037894645226208583nat) == 2715968899728140977158082516398296774769708672351084519250510945632006918535nat);
    lemma_fundamental_div_mod_converse(2715968899728140977158082516398296774769708672351084519250510945632006918535int * 2715968899728140977158082516398296774769708672351084519250510945632006918535int, m, 337006817197777210566369999887715464965267276998132796133380952110231838277int, 4354329797970228431791322224018036344197950723620859379506225495503001214734int);
    assert(mod_pow(3, 1858772786530, 21888242871839275222246405745257275088696311157297823662689037894645226208583nat) == 4354329797970228431791322224018036344197950723620859379506225495503001214734nat);
    lemma_fundamental_div_mod_converse(4354329797970228431791322224018036344197950723620859379506225495503001214734int * 4354329797970228431791322224018036344197950723620859379506225495503001214734int, m, 866227047118753959907391238249586656139913122039220195317752298013452693216int, 8633701796701732797425772732318555159462465736293334858714777606889653617828int);
    lemma_fundamental_div_mod_converse(8633701796701732797425772732318555159462465736293334858714777606889653617828int * 3, m, 1int, 4012862518265923170030912451698390389691086051582180913455294926023734644901int);
    assert(mod_pow(3, 3717545573061, 21888242871839275222246405745257275088696311157297823662689037894645226208583nat) == 4012862518265923170030912451698390389691086051582180913455294926023734644901nat);
    lemma_fundamental_div_mod_converse(4012862518265923170030912451698390389691086051582180913455294926023734644901int * 4012862518265923170030912451698390389691086051582180913455294926023734644901int, m, 735694760186585110926841455633560106039212934215643248653451623185246535494int, 12414955369023928217159862858433215786053147382080337394431668425646808354799int);
    lemma_fundamental_div_mod_converse(12414955369023928217159862858433215786053147382080337394431668425646808354799int * 3, m, 1int, 15356623235232509429233182830042372269463130988943188520605967382295198855814int);
    assert(mod_pow(3, 7435091146123, 21888242871839275222246405745257275088696311157297823662689037894645226208583nat) == 15356623235232509429233182830042372269463130988943188520605967382295198855814nat);
    lemma_fundamental_div_mod_converse(15356623235232509429233182830042372269463130988943188520605967382295198855814int * 15356623235232509429233182830042372269463130988943188520605967382295198855814int, m, 10774089019831241924411228934289001177536469806519413540557548688088636025281int, 15155710253986641926424074577450210104195390758507699151145208515968194415773int);
    lemma_fundamental_div_mod_converse(15155710253986641926424074577450210104195390758507699151145208515968194415773int * 3, m, 2int, 1690645018281375334779412241836080135193549960927450128057549758614130830153int);
    assert(mod_pow(3, 14870182292247, 21888242871839275222246405745257275088696311157297823662689037894645226208583nat) == 1690645018281375334779412241836080135193549960927450128057549758614130830153nat);
    lemma_fundamental_div_mod_converse(1690645018281375334779412241836080135193549960927450128057549758614130830153int * 1690645018281375334779412241836080135193549960927450128057549758614130830153int, m, 130585200218013197547816013171869891911686189442133400649690211490606249206int, 13912094233454535447118091494213261290463128410211377634732479233099099868311int);
    lemma_fundamental_div_mod_converse(13912094233454535447118091494213261290463128410211377634732479233099099868311int * 3, m, 1int, 19848039828524331119107868737382508782693074073336309241508399804652073396350int);
    assert(mod_pow(3, 29740364584495, 21888242871839275222246405745257275088696311157297823662689037894645226208583nat) == 19848039828524331119107868737382508782693074073336309241508399804652073396350nat);
    lemma_fundamental_div_mod_converse(19848039828524331119107868737382508782693074073336309241508399804652073396350int * 19848039828524331119107868737382508782693074073336309241508399804652073396350int, m, 17998004103907536569484997092062769819658351138676153921304839501780375922586int, 9107038513249332960652409371498204500789014641787484859061236260798696566862int);
    lemma_fundamental_div_mod_converse(9107038513249332960652409371498204500789014641787484859061236260798696566862int * 3, m, 1int, 5432872667908723659710822369237338413670732768064630914494670887750863492003int);
    assert(mod_pow(3, 59480729168991, 21888242871839275222246405745257275088696311157297823662689037894645226208583nat) == 5432872667908723659710822369237338413670732768064630914494670887750863492003nat);
    lemma_fundamental_div_mod_converse(5432872667908723659710822369237338413670732768064630914494670887750863492003int * 5432872667908723659710822369237338413670732768064630914494670887750863492003int, m, 1348491315567598418697832549791099936474573177224779737921596147995556932135int, 13333602727412673884941194085612148103670460708264630925606938803950159437304int);
    lemma_fundamental_div_mod_converse(13333602727412673884941194085612148103670460708264630925606938803950159437304int * 3, m, 1int, 18112565310398746432577176511579169222315070967496069114131778517205252103329int);
    assert(mod_pow(3, 118961458337983, 21888242871839275222246405745257275088696311157297823662689037894645226208583nat) == 18112565310398746432577176511579169222315070967496069114131778517205252103329nat);
    lemma_fundamental_div_mod_converse(18112565310398746432577176511579169222315070967496069114131778517205252103329int * 18112565310398746432577176511579169222315070967496069114131778517205252103329int, m, 14988184480789829675466836484417873056669871611708547509939572053646933157998int, 2818181915080896472855132609564539734118082344359510595916256254302050185407int);
    assert(mod_pow(3, 237922916675966, 21888242871839275222246405745257275088696311157297823662689037894645226208583nat) == 2818181915080896472855132609564539734118082344359510595916256254302050185407nat);
    lemma_fundamental_div_mod_converse(2818181915080896472855132609564539734118082344359510595916256254302050185407int * 2818181915080896472855132609564539734118082344359510595916256254302050185407int, m, 362850017381118730807514160617486166804532611841705160944331391569798734878int, 3784263165982572956053954338371600578789770405153723994589812014681130697775int);
    lemma_fundamental_div_mod_converse(3784263165982572956053954338371600578789770405153723994589812014681130697775int * 3, m, 0int, 11352789497947718868161863015114801736369311215461171983769436044043392093325int);
    assert(mod_pow(3, 475845833351933, 21888242871839275222246405745257275088696311157297823662689037894645226208583nat) == 11352789497947718868161863015114801736369311215461171983769436044043392093325nat);
    lemma_fundamental_div_mod_converse(11352789497947718868161863015114801736369311215461171983769436044043392093325int * 11352789497947718868161863015114801736369311215461171983769436044043392093325int, m, 5888358884692954160314532008689866594309764626230646146854334996851156768551int, 15851339162421042802301058566182375804109409002704097185348889419205728882392int);
    lemma_fundamental_div_mod_converse(15851339162421042802301058566182375804109409002704097185348889419205728882392int * 3, m, 2int, 3777531743584577962410364208032577234935604693516644230668592468326734230010int);
    assert(mod_pow(3, 951691666703867, 21888242871839275222246405745257275088696311157297823662689037894645226208583nat) == 3777531743584577962410364208032577234935604693516644230668592468326734230010nat);
    lemma_fundamental_div_mod_converse(3777531743584577962410364208032577234935604693516644230668592468326734230010int * 3777531743584577962410364208032577234935604693516644230668592468326734230010int, m, 651936574230366755813068897970925836371555040412644896850602547132244074271int, 15077235734850450447785361832406660221513659582290003454836557595781594932107int);
    lemma_fundamental_div_mod_converse(15077235734850450447785361832406660221513659582290003454836557595781594932107int * 3, m, 2int, 1455221460872800898863274006705430487148356432274363039131596998054332379155int);
    assert(mod_pow(3, 1903383333407735, 21888242871839275222246405745257275088696311157297823662689037894645226208583nat) == 1455221460872800898863274006705430487148356432274363039131596998054332379155nat);
    lemma_fundamental_div_mod_converse(1455221460872800898863274006705430487148356432274363039131596998054332379155int * 1455221460872800898863274006705430487148356432274363039131596998054332379155int, m, 96749177747351102561327577117253385842796246358254932176855229536597464342int, 20602799211625124403643581038959709910600859679379380337016807097002481666639int);
    assert(mod_pow(3, 3806766666815470, 21888242871839275222246405745257275088696311157297823662689037894645226208583nat) == 20602799211625124403643581038959709910600859679379380337016807097002481666639nat);
    lemma_fundamental_div_mod_converse(20602799211625124403643581038959709910600859679379380337016807097002481666639int * 20602799211625124403643581038959709910600859679379380337016807097002481666639int, m, 19392846554195424344985906192937972737336554606877487484100739831371871188095int, 14230679967775644489833097262049049280395145383812970114232954456514629136936int);
    assert(mod_pow(3, 7613533333630940, 21888242871839275222246405745257275088696311157297823662689037894645226208583nat) == 14230679967775644489833097262049049280395145383812970114232954456514629136936nat);
    lemma_fundamental_div_mod_converse(14230679967775644489833097262049049280395145383812970114232954456514629136936int * 14230679967775644489833097262049049280395145383812970114232954456514629136936int, m, 9252101848970111341379424582186404788713076272688717632986658566773013400644int, 15238152194771630377915412476008544982180878529744729343785740820112548940644int);
    assert(mod_pow(3, 15227066667261880, 21888242871839275222246405745257275088696311157297823662689037894645226208583nat) == 15238152194771630377915412476008544982180878529744729343785740820112548940644nat);
    lemma_fundamental_div_mod_converse(15238152194771630377915412476008544982180878529744729343785740820112548940644int * 15238152194771630377915412476008544982180878529744729343785740820112548940644int, m, 10608493503595316998712019899875784636597256810178020494767055534914162542493int, 1495116499633242792421227462596638371640325039034294633830730814732616317317int);
    lemma_fundamental_div_mod_converse(1495116499633242792421227462596638371640325039034294633830730814732616317317int * 3, m, 0int, 4485349498899728377263682387789915114920975117102883901492192444197848951951int);
    assert(mod_pow(3, 30454133334523761, 21888242871839275222246405745257275088696311157297823662689037894645226208583nat) == 4485349498899728377263682387789915114920975117102883901492192444197848951951nat);
    lemma_fundamental_div_mod_converse(4485349498899728377263682387789915114920975117102883901492192444197848951951int * 4485349498899728377263682387789915114920975117102883901492192444197848951951int, m, 919140026226760018557293390341137386589875823961220285802788806729961688089int, 10850919672137687842470975312783455285896488444458861754573345395597206038514int);
    assert(mod_pow(3, 60908266669047522, 21888242871839275222246405745257275088696311157297823662689037894645226208583nat) == 10850919672137687842470975312783455285896488444458861754573345395597206038514nat);
    lemma_fundamental_div_mod_converse(10850919672137687842470975312783455285896488444458861754573345395597206038514int * 10850919672137687842470975312783455285896488444458861754573345395597206038514int, m, 5379255814210121430717862496745060968495917157984418381636163617688167470470int, 16060480236607788760101513032046570838680091888924949650706735765073538284186int);
    lemma_fundamental_div_mod_converse(16060480236607788760101513032046570838680091888924949650706735765073538284186int * 3, m, 2int, 4404954966144815835811727605625162338647653352179201626742131505930162435392int);
    assert(mod_pow(3, 121816533338095045, 21888242871839275222246405745257275088696311157297823662689037894645226208583nat) == 4404954966144815835811727605625162338647653352179201626742131505930162435392nat);
    lemma_fundamental_div_mod_converse(4404954966144815835811727605625162338647653352179201626742131505930162435392int * 4404954966144815835811727605625162338647653352179201626742131505930162435392int, m, 886486337317097910617358042437696003621806986593480654055610276964499962398int, 19059698826720450875840068731986448774449547262632527017210643497868969331630int);
    assert(mod_pow(3, 243633066676190090, 21888242871839275222246405745257275088696311157297823662689037894645226208583nat) == 19059698826720450875840068731986448774449547262632527017210643497868969331630nat);
    lemma_fundamental_div_mod_converse(19059698826720450875840068731986448774449547262632527017210643497868969331630int * 19059698826720450875840068731986448774449547262632527017210643497868969331630int, m, 16596678019900053907241508972243941096199502481803598864780815567314283387505int, 17125369743082384588541588296932251053821483786008060207289114962015972501485int);
    assert(mod_pow(3, 487266133352380180, 21888242871839275222246405745257275088696311157297823662689037894645226208583nat) == 17125369743082384588541588296932251053821483786008060207289114962015972501485nat);
    lemma_fundamental_div_mod_converse(17125369743082384588541588296932251053821483786008060207289114962015972501485int * 17125369743082384588541588296932251053821483786008060207289114962015972501485int, m, 13398895953160508849776860466463410021559707189619723727427790070891096045390int, 4668581029203438012823358599809807068139711631213982111247855623393751622855int);
    assert(mod_pow(3, 974532266704760360, 21888242871839275222246405745257275088696311157297823662689037894645226208583nat) == 4668581029203438012823358599809807068139711631213982111247855623393751622855nat);
    lemma_fundamental_div_mod_converse(4668581029203438012823358599809807068139711631213982111247855623393751622855int * 4668581029203438012823358599809807068139711631213982111247855623393751622855int, m, 995769690324472263910547062174832855360489316665424425169685521555423887551int, 11244587374991484677171156385410239552522208740968433527945534372983895300792int);
    lemma_fundamental_div_mod_converse(11244587374991484677171156385410239552522208740968433527945534372983895300792int * 3, m, 1int, 11845519253135178809267063410973443568870315065607476921147565224306459693793int);
    assert(mod_pow(3, 1949064533409520721, 21888242871839275222246405745257275088696311157297823662689037894645226208583nat) == 11845519253135178809267063410973443568870315065607476921147565224306459693793nat);
    lemma_fundamental_div_mod_converse(11845519253135178809267063410973443568870315065607476921147565224306459693793int * 11845519253135178809267063410973443568870315065607476921147565224306459693793int, m, 6410579743562822770432356986000174002988015299789538501946828620464158924637int, 15960656916915220735061788687165993113703305130188141872843710122205383167478int);
    assert(mod_pow(3, 3898129066819041442, 21888242871839275222246405745257275088696311157297823662689037894645226208583nat) == 15960656916915220735061788687165993113703305130188141872843710122205383167478nat);
    lemma_fundamental_div_mod_converse(15960656916915220735061788687165993113703305130188141872843710122205383167478int * 15960656916915220735061788687165993113703305130188141872843710122205383167478int, m, 11638328883275388721184068614497017021783515347202560725611456785003232722418int, 7670098248460093124740766967655577776760983244525317515630139539128788766790int);
    lemma_fundamental_div_mod_converse(7670098248460093124740766967655577776760983244525317515630139539128788766790int * 3, m, 1int, 1122051873541004151975895157709458241586638576278128884201380722741140091787int);
    assert(mod_pow(3, 7796258133638082885, 21888242871839275222246405745257275088696311157297823662689037894645226208583nat) == 1122051873541004151975895157709458241586638576278128884201380722741140091787nat);
    lemma_fundamental_div_mod_converse(1122051873541004151975895157709458241586638576278128884201380722741140091787int * 1122051873541004151975895157709458241586638576278128884201380722741140091787int, m, 57519482687057895115571166906114980341889201663535062521783598788360059982int, 12184417440190332271888101359120752012294075267429937718995544039590461627863int);
    lemma_fundamental_div_mod_converse(12184417440190332271888101359120752012294075267429937718995544039590461627863int * 3, m, 1int, 14665009448731721593417898332104980948185914644991989494297594224126158675006int);
    assert(mod_pow(3, 15592516267276165771nat, 21888242871839275222246405745257275088696311157297823662689037894645226208583nat) == 14665009448731721593417898332104980948185914644991989494297594224126158675006nat);
    lemma_fundamental_div_mod_converse(14665009448731721593417898332104980948185914644991989494297594224126158675006int * 14665009448731721593417898332104980948185914644991989494297594224126158675006int, m, 9825480436718075860429780265700920718993411043974240619866512856529444658021int, 19235620355118637212885590315235081015720767891928708884214881795856679105793int);
    lemma_fundamental_div_mod_converse(19235620355118637212885590315235081015720767891928708884214881795856679105793int * 3, m, 2int, 13930375321677361194163959455190692869769681361190479327266569598279584900213int);
    assert(mod_pow(3, 31185032534552331543nat, 21888242871839275222246405745257275088696311157297823662689037894645226208583nat) == 13930375321677361194163959455190692869769681361190479327266569598279584900213nat);
    lemma_fundamental_div_mod_converse(13930375321677361194163959455190692869769681361190479327266569598279584900213int * 13930375321677361194163959455190692869769681361190479327266569598279584900213int, m, 8865734802881923523570619723841973101182223063846710777905718842063402602409int, 14739673249666166116887051208760563206559437119074587399695836876458715168922int);
    assert(mod_pow(3, 62370065069104663086nat, 21888242871839275222246405745257275088696311157297823662689037894645226208583nat) == 14739673249666166116887051208760563206559437119074587399695836876458715168922nat);
    lemma_fundamental_div_mod_converse(14739673249666166116887051208760563206559437119074587399695836876458715168922int * 14739673249666166116887051208760563206559437119074587399695836876458715168922int, m, 9925783845648095620647238552663137086997514462129479532800490919551630352865int, 4751743798303804707647691271811851361683615415752225781418956337752613001789int);
    assert(mod_pow(3, 124740130138209326172nat, 21888242871839275222246405745257275088696311157297823662689037894645226208583nat) == 4751743798303804707647691271811851361683615415752225781418956337752613001789nat);
    lemma_fundamental_div_mod_converse(4751743798303804707647691271811851361683615415752225781418956337752613001789int * 4751743798303804707647691271811851361683615415752225781418956337752613001789int, m, 1031561521723070296309285104930194197037239174953472992908573244447636016053int, 10712561218315254840565566235817030370068801529425466864001349150773202817622int);
    lemma_fundamental_div_mod_converse(10712561218315254840565566235817030370068801529425466864001349150773202817622int * 3, m, 1int, 10249440783106489299450292962193816021510093430978576929315009557674382244283int);
    assert(mod_pow(3, 249480260276418652345nat, 21888242871839275222246405745257275088696311157297823662689037894645226208583nat) == 10249440783106489299450292962193816021510093430978576929315009557674382244283nat);
    lemma_fundamental_div_mod_converse(10249440783106489299450292962193816021510093430978576929315009557674382244283int * 10249440783106489299450292962193816021510093430978576929315009557674382244283int, m, 4799427573127029013556923322636575461908675900298996104515134423173735936919int, 7301984560780310791424042776829193963963369066241872437533695598314261808312int);
    lemma_fundamental_div_mod_converse(7301984560780310791424042776829193963963369066241872437533695598314261808312int * 3, m, 1int, 17710810501657152025722585230306803193796041427793649912048900297559216353int);
    assert(mod_pow(3, 498960520552837304691nat, 21888242871839275222246405745257275088696311157297823662689037894645226208583nat) == 17710810501657152025722585230306803193796041427793649912048900297559216353nat);
    lemma_fundamental_div_mod_converse(17710810501657152025722585230306803193796041427793649912048900297559216353int * 17710810501657152025722585230306803193796041427793649912048900297559216353int, m, 14330652782968286134287752012999734844194622134473263447758052202565002int, 21797795596583118211816032187638177269620382103891741580682454840063394808443int);
    assert(mod_pow(3, 997921041105674609382nat, 21888242871839275222246405745257275088696311157297823662689037894645226208583nat) == 21797795596583118211816032187638177269620382103891741580682454840063394808443nat);
    lemma_fundamental_div_mod_converse(21797795596583118211816032187638177269620382103891741580682454840063394808443int * 21797795596583118211816032187638177269620382103891741580682454840063394808443int, m, 21707722070359679952685842187629607651331385211480939334638230398584994466892int, 2921712600341302774735931995811507194924533662115657613286056580766184350213int);
    lemma_fundamental_div_mod_converse(2921712600341302774735931995811507194924533662115657613286056580766184350213int * 3, m, 0int, 8765137801023908324207795987434521584773600986346972839858169742298553050639int);
    assert(mod_pow(3, 1995842082211349218765nat, 21888242871839275222246405745257275088696311157297823662689037894645226208583nat) == 8765137801023908324207795987434521584773600986346972839858169742298553050639nat);
    lemma_fundamental_div_mod_converse(8765137801023908324207795987434521584773600986346972839858169742298553050639int * 8765137801023908324207795987434521584773600986346972839858169742298553050639int, m, 3509995805546468097930730403588137287699168200949258836514507751397767967913int, 4134295641356972388013869901151244140343799560306711785121414434583909111042int);
    assert(mod_pow(3, 3991684164422698437530nat, 21888242871839275222246405745257275088696311157297823662689037894645226208583nat) == 4134295641356972388013869901151244140343799560306711785121414434583909111042nat);
    lemma_fundamental_div_mod_converse(4134295641356972388013869901151244140343799560306711785121414434583909111042int * 4134295641356972388013869901151244140343799560306711785121414434583909111042int, m, 780894133449780221016063511121185194839539837345825193545503562122680336595int, 18247278896737298017872351986209591258389430851767638401597038388980568330879int);
    lemma_fundamental_div_mod_converse(18247278896737298017872351986209591258389430851767638401597038388980568330879int * 3, m, 2int, 10965350946533343609124244468114223597775670240707267879413039377651252575471int);
    assert(mod_pow(3, 7983368328845396875061nat, 21888242871839275222246405745257275088696311157297823662689037894645226208583nat) == 10965350946533343609124244468114223597775670240707267879413039377651252575471nat);
    lemma_fundamental_div_mod_converse(10965350946533343609124244468114223597775670240707267879413039377651252575471int * 10965350946533343609124244468114223597775670240707267879413039377651252575471int, m, 5493310819176595884335690095832801669186258183288218417211602590271211895159int, 6204370783141564484317952118186722246087163870987442042362352239558888922144int);
    assert(mod_pow(3, 15966736657690793750122nat, 21888242871839275222246405745257275088696311157297823662689037894645226208583nat) == 6204370783141564484317952118186722246087163870987442042362352239558888922144nat);
    lemma_fundamental_div_mod_converse(6204370783141564484317952118186722246087163870987442042362352239558888922144int * 6204370783141564484317952118186722246087163870987442042362352239558888922144int, m, 1758670946776916419209769045999312593791979402001371657305735335476668576219int, 18897090725251987868733824834496477685838780539492502748326306851839966069059int);
    assert(mod_pow(3, 31933473315381587500244nat, 21888242871839275222246405745257275088696311157297823662689037894645226208583nat) == 18897090725251987868733824834496477685838780539492502748326306851839966069059nat);
    lemma_fundamental_div_mod_converse(18897090725251987868733824834496477685838780539492502748326306851839966069059int * 18897090725251987868733824834496477685838780539492502748326306851839966069059int, m, 16314696431746852412086956191678617405426091516479706301418685511668853293376int, 10772796906860212395545659986712312231232285295968107512033837948179288899273int);
    assert(mod_pow(3, 63866946630763175000488nat, 21888242871839275222246405745257275088696311157297823662689037894645226208583nat) == 10772796906860212395545659986712312231232285295968107512033837948179288899273nat);
    lemma_fundamental_div_mod_converse(10772796906860212395545659986712312231232285295968107512033837948179288899273int * 10772796906860212395545659986712312231232285295968107512033837948179288899273int, m, 5302077187098800704533003432273813515930903263230211854682406823975590122353int, 18670791644907150664178527509245190420565493604631765859048410842672671172730int);
    lemma_fundamental_div_mod_converse(18670791644907150664178527509245190420565493604631765859048410842672671172730int * 3, m, 2int, 12235889191042901548042771037221021084303858499299650251767156738727561101024int);
    assert(mod_pow(3, 127733893261526350000977nat, 21888242871839275222246405745257275088696311157297823662689037894645226208583nat) == 12235889191042901548042771037221021084303858499299650251767156738727561101024nat);
    lemma_fundamental_div_mod_converse(12235889191042901548042771037221021084303858499299650251767156738727561101024int * 12235889191042901548042771037221021084303858499299650251767156738727561101024int, m, 6840064100718732167372014895036603325675474890936073620523933439369299570250int, 9865034320409149007891110122939393369455141515163773757596433166516372392826int);
    lemma_fundamental_div_mod_converse(9865034320409149007891110122939393369455141515163773757596433166516372392826int * 3, m, 1int, 7706860089388171801426924623560905019669113388193497610100261604903890969895int);
    assert(mod_pow(3, 255467786523052700001955nat, 21888242871839275222246405745257275088696311157297823662689037894645226208583nat) == 7706860089388171801426924623560905019669113388193497610100261604903890969895nat);
    lemma_fundamental_div_mod_converse(7706860089388171801426924623560905019669113388193497610100261604903890969895int * 7706860089388171801426924623560905019669113388193497610100261604903890969895int, m, 2713588878978535505480109545904605969562965381270654260903932844095082073739int, 10329578213384712812114781330216323344731126338345460229204596956899595609188int);
    lemma_fundamental_div_mod_converse(10329578213384712812114781330216323344731126338345460229204596956899595609188int * 3, m, 1int, 9100491768314863214097938245391694945497067857738557024924752976053560618981int);
    assert(mod_pow(3, 510935573046105400003911nat, 21888242871839275222246405745257275088696311157297823662689037894645226208583nat) == 9100491768314863214097938245391694945497067857738557024924752976053560618981nat);
    lemma_fundamental_div_mod_converse(9100491768314863214097938245391694945497067857738557024924752976053560618981int * 9100491768314863214097938245391694945497067857738557024924752976053560618981int, m, 3783718542876680271234600172709601922273841735927031344237435510929127463650int, 18743925265432900254781341808472620572950606734970507526306488726399206970411int);
    assert(mod_pow(3, 1021871146092210800007822nat, 21888242871839275222246405745257275088696311157297823662689037894645226208583nat) == 18743925265432900254781341808472620572950606734970507526306488726399206970411nat);
    lemma_fundamental_div_mod_converse(18743925265432900254781341808472620572950606734970507526306488726399206970411int * 18743925265432900254781341808472620572950606734970507526306488726399206970411int, m, 16051299156962025405676814281654426672498228113024575362162913924968007063471int, 18199893773045185202697169098936831688216325361917252702875670785772263537328int);
    assert(mod_pow(3, 2043742292184421600015644nat, 21888242871839275222246405745257275088696311157297823662689037894645226208583nat) == 18199893773045185202697169098936831688216325361917252702875670785772263537328nat);
    lemma_fundamental_div_mod_converse(18199893773045185202697169098936831688216325361917252702875670785772263537328int * 18199893773045185202697169098936831688216325361917252702875670785772263537328int, m, 15133061858349849422820157050067694950114941348913598273426978681516891177665int, 2534083393284468513003171513811769806777001108142437330780704698565448480889int);
    assert(mod_pow(3, 4087484584368843200031288nat, 21888242871839275222246405745257275088696311157297823662689037894645226208583nat) == 2534083393284468513003171513811769806777001108142437330780704698565448480889nat);
    lemma_fundamental_div_mod_converse(2534083393284468513003171513811769806777001108142437330780704698565448480889int * 2534083393284468513003171513811769806777001108142437330780704698565448480889int, m, 293380271852791226527159408974171582384580401556269557521544522822168346510int, 12269988815735024681085017314778857298541959353454011662252770282076318134991int);
    assert(mod_pow(3, 8174969168737686400062576nat, 21888242871839275222246405745257275088696311157297823662689037894645226208583nat) == 12269988815735024681085017314778857298541959353454011662252770282076318134991nat);
    lemma_fundamental_div_mod_converse(12269988815735024681085017314778857298541959353454011662252770282076318134991int * 12269988815735024681085017314778857298541959353454011662252770282076318134991int, m, 6878241730950402866600966472710219205057195558442863267172606305320955487343int, 3318927271793913912207112490996416927298593110529961343278548973271564105112int);
    lemma_fundamental_div_mod_converse(3318927271793913912207112490996416927298593110529961343278548973271564105112int * 3, m, 0int, 9956781815381741736621337472989250781895779331589884029835646919814692315336int);
    assert(mod_pow(3, 16349938337475372800125153nat, 21888242871839275222246405745257275088696311157297823662689037894645226208583nat) == 9956781815381741736621337472989250781895779331589884029835646919814692315336nat);
    lemma_fundamental_div_mod_converse(9956781815381741736621337472989250781895779331589884029835646919814692315336int * 9956781815381741736621337472989250781895779331589884029835646919814692315336int, m, 4529258227788751694989480608114612935551505500455836840071681298529694986930int, 12487764459024596062104648835769530360060459468731827525507273959266821972706int);
    assert(mod_pow(3, 32699876674950745600250306nat, 21888242871839275222246405745257275088696311157297823662689037894645226208583nat) == 12487764459024596062104648835769530360060459468731827525507273959266821972706nat);
    lemma_fundamental_div_mod_converse(12487764459024596062104648835769530360060459468731827525507273959266821972706int * 12487764459024596062104648835769530360060459468731827525507273959266821972706int, m, 7124567380632953571066667234548467968358987739100783004361664627705233926864int, 16265758574303579935428666988272650143235453015870509700168200475161977888724int);
    assert(mod_pow(3, 65399753349901491200500612nat, 21888242871839275222246405745257275088696311157297823662689037894645226208583nat) == 16265758574303579935428666988272650143235453015870509700168200475161977888724nat);
    lemma_fundamental_div_mod_converse(16265758574303579935428666988272650143235453015870509700168200475161977888724int * 16265758574303579935428666988272650143235453015870509700168200475161977888724int, m, 12087535008939624659386828863105380514050373280796750468960922068185902412345int, 21296040962624639325464364806140875711816209144696910546941504477686682191041int);
    lemma_fundamental_div_mod_converse(21296040962624639325464364806140875711816209144696910546941504477686682191041int * 3, m, 2int, 20111637144195367531900282927908076958056005119495084315446437643769594155957int);
    assert(mod_pow(3, 130799506699802982401001225nat, 21888242871839275222246405745257275088696311157297823662689037894645226208583nat) == 20111637144195367531900282927908076958056005119495084315446437643769594155957nat);
    lemma_fundamental_div_mod_converse(20111637144195367531900282927908076958056005119495084315446437643769594155957int * 20111637144195367531900282927908076958056005119495084315446437643769594155957int, m, 18479233394297145901981384251125727912105260201681638224430679548182303975687int, 13058020632787890090015776566611579441412147879173106757204996881036815864328int);
    assert(mod_pow(3, 261599013399605964802002450nat, 21888242871839275222246405745257275088696311157297823662689037894645226208583nat) == 13058020632787890090015776566611579441412147879173106757204996881036815864328nat);
    lemma_fundamental_div_mod_converse(13058020632787890090015776566611579441412147879173106757204996881036815864328int * 13058020632787890090015776566611579441412147879173106757204996881036815864328int, m, 7790113799664088167931019852194887922506368207631678920095175869766693175037int, 6464967620825446880123910322397926505793214590365566186653063621631812149013int);
    lemma_fundamental_div_mod_converse(6464967620825446880123910322397926505793214590365566186653063621631812149013int * 3, m, 0int, 19394902862476340640371730967193779517379643771096698559959190864895436447039int);
    assert(mod_pow(3, 523198026799211929604004901nat, 21888242871839275222246405745257275088696311157297823662689037894645226208583nat) == 19394902862476340640371730967193779517379643771096698559959190864895436447039nat);
    lemma_fundamental_div_mod_converse(19394902862476340640371730967193779517379643771096698559959190864895436447039int * 19394902862476340640371730967193779517379643771096698559959190864895436447039int, m, 17185584939248434581360319485174342998255250397910135693109802832482666147634int, 9844597211708411613343971027518123303016033035177141096374335776579495924899int);
    lemma_fundamental_div_mod_converse(9844597211708411613343971027518123303016033035177141096374335776579495924899int * 3, m, 1int, 7645548763285959617785507337297094820351787948233599626433969435093261566114int);
    assert(mod_pow(3, 1046396053598423859208009803nat, 21888242871839275222246405745257275088696311157297823662689037894645226208583nat) == 7645548763285959617785507337297094820351787948233599626433969435093261566114nat);
    lemma_fundamental_div_mod_converse(7645548763285959617785507337297094820351787948233599626433969435093261566114int * 7645548763285959617785507337297094820351787948233599626433969435093261566114int, m, 2670585128009022567935847690391568313129615758709682202274367850227700929728int, 4085063988157510084703754404481657664754171351049749501002193932814439605572int);
    assert(mod_pow(3, 2092792107196847718416019606nat, 21888242871839275222246405745257275088696311157297823662689037894645226208583nat) == 4085063988157510084703754404481657664754171351049749501002193932814439605572nat);
    lemma_fundamental_div_mod_converse(4085063988157510084703754404481657664754171351049749501002193932814439605572int * 4085063988157510084703754404481657664754171351049749501002193932814439605572int, m, 762406917953714460959084175373981396186962188194928165952413363234442420731int, 17624042050186503636010248447903632237951909703600039707482379929991284113011int);
    lemma_fundamental_div_mod_converse(17624042050186503636010248447903632237951909703600039707482379929991284113011int * 3, m, 2int, 9095640406880960463537933853196346536463106796204471797069064000683399921867int);
    assert(mod_pow(3, 4185584214393695436832039213nat, 21888242871839275222246405745257275088696311157297823662689037894645226208583nat) == 9095640406880960463537933853196346536463106796204471797069064000683399921867nat);
    lemma_fundamental_div_mod_converse(9095640406880960463537933853196346536463106796204471797069064000683399921867int * 9095640406880960463537933853196346536463106796204471797069064000683399921867int, m, 3779685509508135410585483785029553742634760131700558646180519671953221920469int, 2908935000987768454163246497803319223019032829941516673060875046402873580262int);
    assert(mod_pow(3, 8371168428787390873664078426nat, 21888242871839275222246405745257275088696311157297823662689037894645226208583nat) == 2908935000987768454163246497803319223019032829941516673060875046402873580262nat);
    lemma_fundamental_div_mod_converse(2908935000987768454163246497803319223019032829941516673060875046402873580262int * 2908935000987768454163246497803319223019032829941516673060875046402873580262int, m, 386595803487658046761207349757743661558774239957086723430499114980571175277int, 12007140514435064765888533451567431277582387028401555105355142007367101186153int);
    lemma_fundamental_div_mod_converse(12007140514435064765888533451567431277582387028401555105355142007367101186153int * 3, m, 1int, 14133178671465919075419194609445018744050849927906841653376388127456077349876int);
    assert(mod_pow(3, 16742336857574781747328156853nat, 21888242871839275222246405745257275088696311157297823662689037894645226208583nat) == 14133178671465919075419194609445018744050849927906841653376388127456077349876nat);
    lemma_fundamental_div_mod_converse(14133178671465919075419194609445018744050849927906841653376388127456077349876int * 14133178671465919075419194609445018744050849927906841653376388127456077349876int, m, 9125754887184984276957490581617115019708078860465298397312251573819277878996int, 13656186379033595009952001056986505853715794858381887991231108450404386592708int);
    lemma_fundamental_div_mod_converse(13656186379033595009952001056986505853715794858381887991231108450404386592708int * 3, m, 1int, 19080316265261509807609597425702242472451073417847840311004287456567933569541int);
    assert(mod_pow(3, 33484673715149563494656313707nat, 21888242871839275222246405745257275088696311157297823662689037894645226208583nat) == 19080316265261509807609597425702242472451073417847840311004287456567933569541nat);
    lemma_fundamental_div_mod_converse(19080316265261509807609597425702242472451073417847840311004287456567933569541int * 19080316265261509807609597425702242472451073417847840311004287456567933569541int, m, 16632603672850738707073305858792279387478204691300400761659032258227448892702int, 13818163526252239209977922858490805789637970934621961488200988117068844489415int);
    assert(mod_pow(3, 66969347430299126989312627414nat, 21888242871839275222246405745257275088696311157297823662689037894645226208583nat) == 13818163526252239209977922858490805789637970934621961488200988117068844489415nat);
    lemma_fundamental_div_mod_converse(13818163526252239209977922858490805789637970934621961488200988117068844489415int * 13818163526252239209977922858490805789637970934621961488200988117068844489415int, m, 8723479740071197311265494614774268590572500395194544883368754170348421545895int, 19875589415613652415087570425698029065648866623200054911637227546353469625440int);
    lemma_fundamental_div_mod_converse(19875589415613652415087570425698029065648866623200054911637227546353469625440int * 3, m, 2int, 15850282503162406800769899786579537019553977555004517409533606849769956459154int);
    assert(mod_pow(3, 133938694860598253978625254829nat, 21888242871839275222246405745257275088696311157297823662689037894645226208583nat) == 15850282503162406800769899786579537019553977555004517409533606849769956459154nat);
    lemma_fundamental_div_mod_converse(15850282503162406800769899786579537019553977555004517409533606849769956459154int * 15850282503162406800769899786579537019553977555004517409533606849769956459154int, m, 11477917935262077174354010238357029545363552092544916947481675777934218017355int, 9031806478278979114640563220551224501512827496923406348652046796071326437751int);
    assert(mod_pow(3, 267877389721196507957250509658nat, 21888242871839275222246405745257275088696311157297823662689037894645226208583nat) == 9031806478278979114640563220551224501512827496923406348652046796071326437751nat);
    lemma_fundamental_div_mod_converse(9031806478278979114640563220551224501512827496923406348652046796071326437751int * 9031806478278979114640563220551224501512827496923406348652046796071326437751int, m, 3726819404312808990939931817070440158922667656397992990118373858261164184047int, 3059779739223612261023725462917605417801298497146112703187775791928654862600int);
    lemma_fundamental_div_mod_converse(3059779739223612261023725462917605417801298497146112703187775791928654862600int * 3, m, 0int, 9179339217670836783071176388752816253403895491438338109563327375785964587800int);
    assert(mod_pow(3, 535754779442393015914501019317nat, 21888242871839275222246405745257275088696311157297823662689037894645226208583nat) == 9179339217670836783071176388752816253403895491438338109563327375785964587800nat);
    lemma_fundamental_div_mod_converse(9179339217670836783071176388752816253403895491438338109563327375785964587800int * 9179339217670836783071176388752816253403895491438338109563327375785964587800int, m, 3849567503724863216742380521436558027792359721627579639670985113359008488761int, 19941997478807846111173191823146140858551776689409942143132763010251311604337int);
    assert(mod_pow(3, 1071509558884786031829002038634nat, 21888242871839275222246405745257275088696311157297823662689037894645226208583nat) == 19941997478807846111173191823146140858551776689409942143132763010251311604337nat);
    lemma_fundamental_div_mod_converse(19941997478807846111173191823146140858551776689409942143132763010251311604337int * 19941997478807846111173191823146140858551776689409942143132763010251311604337int, m, 18168807143328314773556381998310331439401106969419381438290826358321050079568int, 931167732874574600333861052071360614906902241311486925016565103505722677425int);
    lemma_fundamental_div_mod_converse(931167732874574600333861052071360614906902241311486925016565103505722677425int * 3, m, 0int, 2793503198623723801001583156214081844720706723934460775049695310517168032275int);
    assert(mod_pow(3, 2143019117769572063658004077269nat, 21888242871839275222246405745257275088696311157297823662689037894645226208583nat) == 2793503198623723801001583156214081844720706723934460775049695310517168032275nat);
    lemma_fundamental_div_mod_converse(2793503198623723801001583156214081844720706723934460775049695310517168032275int * 2793503198623723801001583156214081844720706723934460775049695310517168032275int, m, 356522913530026647995770882953557354742081305444187242349249226584037618349int, 14425994996958928994584217115663449872380729328244856882120632186025019586158int);
    assert(mod_pow(3, 4286038235539144127316008154538nat, 21888242871839275222246405745257275088696311157297823662689037894645226208583nat) == 14425994996958928994584217115663449872380729328244856882120632186025019586158nat);
    lemma_fundamental_div_mod_converse(14425994996958928994584217115663449872380729328244856882120632186025019586158int * 14425994996958928994584217115663449872380729328244856882120632186025019586158int, m, 9507813526687012859078685874441868372119843591773171472902948565630181466088int, 20484865709542417315102253145324826355942036242630191244607672317280956167660int);
    assert(mod_pow(3, 8572076471078288254632016309076nat, 21888242871839275222246405745257275088696311157297823662689037894645226208583nat) == 20484865709542417315102253145324826355942036242630191244607672317280956167660nat);
    lemma_fundamental_div_mod_converse(20484865709542417315102253145324826355942036242630191244607672317280956167660int * 20484865709542417315102253145324826355942036242630191244607672317280956167660int, m, 19171466873563851331792283102632335034677141978034856440738459248610560804041int, 15615210005010073797314573483820582162667374529890651502321216647431574591697int);
    lemma_fundamental_div_mod_converse(15615210005010073797314573483820582162667374529890651502321216647431574591697int * 3, m, 2int, 3069144271351670947450908960947196310609501275076307181585574153004271357925int);
    assert(mod_pow(3, 17144152942156576509264032618153nat, 21888242871839275222246405745257275088696311157297823662689037894645226208583nat) == 3069144271351670947450908960947196310609501275076307181585574153004271357925nat);
    lemma_fundamental_div_mod_converse(3069144271351670947450908960947196310609501275076307181585574153004271357925int * 3069144271351670947450908960947196310609501275076307181585574153004271357925int, m, 430351884046836859282412820663408724342769126015129299529025826225152167694int, 9885237154003220240867586574263838115628860727983425148049129039080022188023int);
    lemma_fundamental_div_mod_converse(9885237154003220240867586574263838115628860727983425148049129039080022188023int * 3, m, 1int, 7767468590170385500356353977534239258190271026652451781458349222594840355486int);
    assert(mod_pow(3, 34288305884313153018528065236307nat, 21888242871839275222246405745257275088696311157297823662689037894645226208583nat) == 7767468590170385500356353977534239258190271026652451781458349222594840355486nat);
    lemma_fundamental_div_mod_converse(7767468590170385500356353977534239258190271026652451781458349222594840355486int * 7767468590170385500356353977534239258190271026652451781458349222594840355486int, m, 2756437264176503967253875044090285882835147603744627995962971168837199101100int, 10720583012269865890732663946867173920167947660364510779055092122862145554896int);
    lemma_fundamental_div_mod_converse(10720583012269865890732663946867173920167947660364510779055092122862145554896int * 3, m, 1int, 10273506164970322449951586095344246671807531823795708674476238473941210456105int);
    assert(mod_pow(3, 68576611768626306037056130472615nat, 21888242871839275222246405745257275088696311157297823662689037894645226208583nat) == 10273506164970322449951586095344246671807531823795708674476238473941210456105nat);
    lemma_fundamental_div_mod_converse(10273506164970322449951586095344246671807531823795708674476238473941210456105int * 10273506164970322449951586095344246671807531823795708674476238473941210456105int, m, 4821991858353966267521024532670228104538873934746006815727748930510258179653int, 9513529964338914683617219958452144163049561454999333031190790383413667209326int);
    lemma_fundamental_div_mod_converse(9513529964338914683617219958452144163049561454999333031190790383413667209326int * 3, m, 1int, 6652347021177468828605254130099157400452373207700175430883333255595775419395int);
    assert(mod_pow(3, 137153223537252612074112260945231nat, 21888242871839275222246405745257275088696311157297823662689037894645226208583nat) == 6652347021177468828605254130099157400452373207700175430883333255595775419395nat);
    lemma_fundamental_div_mod_converse(6652347021177468828605254130099157400452373207700175430883333255595775419395int * 6652347021177468828605254130099157400452373207700175430883333255595775419395int, m, 2021803264395617073082887523337507704377813203036509005553041480931811175167int, 7945098616052889115552472412319834618167350291300056838804518999015050307664int);
    lemma_fundamental_div_mod_converse(7945098616052889115552472412319834618167350291300056838804518999015050307664int * 3, m, 1int, 1947052976319392124411011491702228765805739716602346853724519102399924714409int);
    assert(mod_pow(3, 274306447074505224148224521890463nat, 21888242871839275222246405745257275088696311157297823662689037894645226208583nat) == 1947052976319392124411011491702228765805739716602346853724519102399924714409nat);
    lemma_fundamental_div_mod_converse(1947052976319392124411011491702228765805739716602346853724519102399924714409int * 1947052976319392124411011491702228765805739716602346853724519102399924714409int, m, 173198703742071702646219191737985531702902306205522762147557921165040464417int, 14393272223970625498661884175328397777513413554358756469990171771561780728170int);
    assert(mod_pow(3, 548612894149010448296449043780926nat, 21888242871839275222246405745257275088696311157297823662689037894645226208583nat) == 14393272223970625498661884175328397777513413554358756469990171771561780728170nat);
    lemma_fundamental_div_mod_converse(14393272223970625498661884175328397777513413554358756469990171771561780728170int * 14393272223970625498661884175328397777513413554358756469990171771561780728170int, m, 9464728919828367858386891661900999485640315776314424728098679471633087390525int, 20471458007129187458288101791470607477895405982704841221022334050064603672825int);
    assert(mod_pow(3, 1097225788298020896592898087561852nat, 21888242871839275222246405745257275088696311157297823662689037894645226208583nat) == 20471458007129187458288101791470607477895405982704841221022334050064603672825nat);
    lemma_fundamental_div_mod_converse(20471458007129187458288101791470607477895405982704841221022334050064603672825int * 20471458007129187458288101791470607477895405982704841221022334050064603672825int, m, 19146378966620003649234208889386683116346559080412486662654873772911847035294int, 3009399668757249276551235543349993806361126570428464952810995740083036752223int);
    assert(mod_pow(3, 2194451576596041793185796175123704nat, 21888242871839275222246405745257275088696311157297823662689037894645226208583nat) == 3009399668757249276551235543349993806361126570428464952810995740083036752223nat);
    lemma_fundamental_div_mod_converse(3009399668757249276551235543349993806361126570428464952810995740083036752223int * 3009399668757249276551235543349993806361126570428464952810995740083036752223int, m, 413760319608296751490778274820050039554316788529519865824067262335088191509int, 4212132109268251895168420887465725201938886809835508903000727119457611919982int);
    lemma_fundamental_div_mod_converse(4212132109268251895168420887465725201938886809835508903000727119457611919982int * 3, m, 0int, 12636396327804755685505262662397175605816660429506526709002181358372835759946int);
    assert(mod_pow(3, 4388903153192083586371592350247409nat, 21888242871839275222246405745257275088696311157297823662689037894645226208583nat) == 12636396327804755685505262662397175605816660429506526709002181358372835759946nat);
    lemma_fundamental_div_mod_converse(12636396327804755685505262662397175605816660429506526709002181358372835759946int * 12636396327804755685505262662397175605816660429506526709002181358372835759946int, m, 7295172713877131978840633694753773001879396021329778898286296486859592878987int, 20426755138414173039958641295419041607495731129963916392647950280783798177495int);
    lemma_fundamental_div_mod_converse(20426755138414173039958641295419041607495731129963916392647950280783798177495int * 3, m, 2int, 17503779671563968675383112395742574645094571075296101852565775053060942115319int);
    assert(mod_pow(3, 8777806306384167172743184700494819nat, 21888242871839275222246405745257275088696311157297823662689037894645226208583nat) == 17503779671563968675383112395742574645094571075296101852565775053060942115319nat);
    lemma_fundamental_div_mod_converse(17503779671563968675383112395742574645094571075296101852565775053060942115319int * 17503779671563968675383112395742574645094571075296101852565775053060942115319int, m, 13997574158172279262137894840485853229168149095514692782376179318511871374641int, 80321878724636769019951731724899165157503695669882968521456443773491728058int);
    lemma_fundamental_div_mod_converse(80321878724636769019951731724899165157503695669882968521456443773491728058int * 3, m, 0int, 240965636173910307059855195174697495472511087009648905564369331320475184174int);
    assert(mod_pow(3, 17555612612768334345486369400989639nat, 21888242871839275222246405745257275088696311157297823662689037894645226208583nat) == 240965636173910307059855195174697495472511087009648905564369331320475184174nat);
    lemma_fundamental_div_mod_converse(240965636173910307059855195174697495472511087009648905564369331320475184174int * 240965636173910307059855195174697495472511087009648905564369331320475184174int, m, 2652768344936504281319228179737708866124852335253440067857949878240055297int, 11361404150432673395364735295353073976779869971738025647028176969351644048125int);
    lemma_fundamental_div_mod_converse(11361404150432673395364735295353073976779869971738025647028176969351644048125int * 3, m, 1int, 12195969579458744963847800140801946841643298757916253278395493013409705935792int);
    assert(mod_pow(3, 35111225225536668690972738801979279nat, 21888242871839275222246405745257275088696311157297823662689037894645226208583nat) == 12195969579458744963847800140801946841643298757916253278395493013409705935792nat);
    lemma_fundamental_div_mod_converse(12195969579458744963847800140801946841643298757916253278395493013409705935792int * 12195969579458744963847800140801946841643298757916253278395493013409705935792int, m, 6795505461722077084666383735559502805760199445584044785271686735018372242513int, 2914862608855283685948239101967593560643625426153095992170909908368028578185int);
    assert(mod_pow(3, 70222450451073337381945477603958558nat, 21888242871839275222246405745257275088696311157297823662689037894645226208583nat) == 2914862608855283685948239101967593560643625426153095992170909908368028578185nat);
    lemma_fundamental_div_mod_converse(2914862608855283685948239101967593560643625426153095992170909908368028578185int * 2914862608855283685948239101967593560643625426153095992170909908368028578185int, m, 388172960170953806121985354219549350414710499980440081730427384582292858622int, 15646656987877411065900732163891280928700677369038432071011075927242755941599int);
    assert(mod_pow(3, 140444900902146674763890955207917116nat, 21888242871839275222246405745257275088696311157297823662689037894645226208583nat) == 15646656987877411065900732163891280928700677369038432071011075927242755941599nat);
    lemma_fundamental_div_mod_converse(15646656987877411065900732163891280928700677369038432071011075927242755941599int * 15646656987877411065900732163891280928700677369038432071011075927242755941599int, m, 11184903070098330970283310515271163194873687170510042979806869769726963193713int, 3623674005212389371477055173007025220592257910781144177177728719789126438122int);
    lemma_fundamental_div_mod_converse(3623674005212389371477055173007025220592257910781144177177728719789126438122int * 3, m, 0int, 10871022015637168114431165519021075661776773732343432531533186159367379314366int);
    assert(mod_pow(3, 280889801804293349527781910415834233nat, 21888242871839275222246405745257275088696311157297823662689037894645226208583nat) == 10871022015637168114431165519021075661776773732343432531533186159367379314366nat);
    lemma_fundamental_div_mod_converse(10871022015637168114431165519021075661776773732343432531533186159367379314366int * 10871022015637168114431165519021075661776773732343432531533186159367379314366int, m, 5399205425325097037597958853980767931707064739167591571674587722386176998758int, 16253205386295484927407904834313478122160360177891094776362406683446014042042int);
    assert(mod_pow(3, 561779603608586699055563820831668466nat, 21888242871839275222246405745257275088696311157297823662689037894645226208583nat) == 16253205386295484927407904834313478122160360177891094776362406683446014042042nat);
    lemma_fundamental_div_mod_converse(16253205386295484927407904834313478122160360177891094776362406683446014042042int * 16253205386295484927407904834313478122160360177891094776362406683446014042042int, m, 12068884966046000491274368999914158629484882934985465938449871343345746621836int, 1481956236901680637983631040974703600418644889951196808047086780020385111376int);
    assert(mod_pow(3, 1123559207217173398111127641663336932nat, 21888242871839275222246405745257275088696311157297823662689037894645226208583nat) == 1481956236901680637983631040974703600418644889951196808047086780020385111376nat);
    lemma_fundamental_div_mod_converse(1481956236901680637983631040974703600418644889951196808047086780020385111376int * 1481956236901680637983631040974703600418644889951196808047086780020385111376int, m, 100336710486584771709175688216151045125002908687107159121805654236524213855int, 8626281401798881512174353565923717101951565360046708757030799930075596095911int);
    lemma_fundamental_div_mod_converse(8626281401798881512174353565923717101951565360046708757030799930075596095911int * 3, m, 1int, 3990601333557369314276654952513876217158384922842302608403361895581562079150int);
    assert(mod_pow(3, 2247118414434346796222255283326673865nat, 21888242871839275222246405745257275088696311157297823662689037894645226208583nat) == 3990601333557369314276654952513876217158384922842302608403361895581562079150nat);
    lemma_fundamental_div_mod_converse(3990601333557369314276654952513876217158384922842302608403361895581562079150int * 3990601333557369314276654952513876217158384922842302608403361895581562079150int, m, 727554929677718830583436253502486289003399133890750783248887913306967330757int, 16619123609395265235786656082149847430021592127525943950588800385088031435169int);
    assert(mod_pow(3, 4494236828868693592444510566653347730nat, 21888242871839275222246405745257275088696311157297823662689037894645226208583nat) == 16619123609395265235786656082149847430021592127525943950588800385088031435169nat);
    lemma_fundamental_div_mod_converse(16619123609395265235786656082149847430021592127525943950588800385088031435169int * 16619123609395265235786656082149847430021592127525943950588800385088031435169int, m, 12618430413146742559987543202006466090045546425976222251009006805218624894799int, 6408046439456940068139360948695714532493103035904017805035581113897844198744int);
    assert(mod_pow(3, 8988473657737387184889021133306695460nat, 21888242871839275222246405745257275088696311157297823662689037894645226208583nat) == 6408046439456940068139360948695714532493103035904017805035581113897844198744nat);
    lemma_fundamental_div_mod_converse(6408046439456940068139360948695714532493103035904017805035581113897844198744int * 6408046439456940068139360948695714532493103035904017805035581113897844198744int, m, 1876032690731296999263247115457796236168280927056393627243635319688363177999int, 10772485489034041443858624266142638100439001688920328475925848810815840612119int);
    lemma_fundamental_div_mod_converse(10772485489034041443858624266142638100439001688920328475925848810815840612119int * 3, m, 1int, 10429213595262849109329467053170639212620693909463161765088508537802295627774int);
    assert(mod_pow(3, 17976947315474774369778042266613390921nat, 21888242871839275222246405745257275088696311157297823662689037894645226208583nat) == 10429213595262849109329467053170639212620693909463161765088508537802295627774nat);
    lemma_fundamental_div_mod_converse(10429213595262849109329467053170639212620693909463161765088508537802295627774int * 10429213595262849109329467053170639212620693909463161765088508537802295627774int, m, 4969265776722240638135420629367325166469334747431888425001734176950715582593int, 7634348229271063418204155564838239476112619860070705792438865074017378199357int);
    assert(mod_pow(3, 35953894630949548739556084533226781842nat, 21888242871839275222246405745257275088696311157297823662689037894645226208583nat) == 7634348229271063418204155564838239476112619860070705792438865074017378199357nat);
    lemma_fundamental_div_mod_converse(7634348229271063418204155564838239476112619860070705792438865074017378199357int * 7634348229271063418204155564838239476112619860070705792438865074017378199357int, m, 2662766181234202544040068355057501870769973982923488091534631851806700184697int, 17806035720262154793843404151451570227181811646233338432917729762640488559098int);
    assert(mod_pow(3, 71907789261899097479112169066453563684nat, 21888242871839275222246405745257275088696311157297823662689037894645226208583nat) == 17806035720262154793843404151451570227181811646233338432917729762640488559098nat);
    lemma_fundamental_div_mod_converse(17806035720262154793843404151451570227181811646233338432917729762640488559098int * 17806035720262154793843404151451570227181811646233338432917729762640488559098int, m, 14485169500707828188223464148549469327695102191546781699695706817142438975932int, 19961931958934213033333954569514646094940708796804031480822205773382689749248int);
    assert(mod_pow(3, 143815578523798194958224338132907127368nat, 21888242871839275222246405745257275088696311157297823662689037894645226208583nat) == 19961931958934213033333954569514646094940708796804031480822205773382689749248nat);
    lemma_fundamental_div_mod_converse(19961931958934213033333954569514646094940708796804031480822205773382689749248int * 19961931958934213033333954569514646094940708796804031480822205773382689749248int, m, 18205149214868650071226325559621104452872879474018996179465756857050310992879int, 1037842413621398930227873618690035126074898301886048596205829945133634885047int);
    lemma_fundamental_div_mod_converse(1037842413621398930227873618690035126074898301886048596205829945133634885047int * 3, m, 0int, 3113527240864196790683620856070105378224694905658145788617489835400904655141int);
    assert(mod_pow(3, 287631157047596389916448676265814254737nat, 21888242871839275222246405745257275088696311157297823662689037894645226208583nat) == 3113527240864196790683620856070105378224694905658145788617489835400904655141nat);
    lemma_fundamental_div_mod_converse(3113527240864196790683620856070105378224694905658145788617489835400904655141int * 3113527240864196790683620856070105378224694905658145788617489835400904655141int, m, 442888537758116724700773288070817794550080125785583237719333046577028290670int, 7911442207156445876139716667221333036391242206737542840189366951590764909271int);
    lemma_fundamental_div_mod_converse(7911442207156445876139716667221333036391242206737542840189366951590764909271int * 3, m, 1int, 1846083749630062406172744256406724020477415462914804857879062960127068519230int);
    assert(mod_pow(3, 575262314095192779832897352531628509475nat, 21888242871839275222246405745257275088696311157297823662689037894645226208583nat) == 1846083749630062406172744256406724020477415462914804857879062960127068519230nat);
    lemma_fundamental_div_mod_converse(1846083749630062406172744256406724020477415462914804857879062960127068519230int * 1846083749630062406172744256406724020477415462914804857879062960127068519230int, m, 155701178509529834153951745368497154069888243664537715740709432649670156627int, 7610118524981506746052241065367135947795258940752238184297959795341898063359int);
    assert(mod_pow(3, 1150524628190385559665794705063257018950nat, 21888242871839275222246405745257275088696311157297823662689037894645226208583nat) == 7610118524981506746052241065367135947795258940752238184297959795341898063359nat);
    lemma_fundamental_div_mod_converse(7610118524981506746052241065367135947795258940752238184297959795341898063359int * 7610118524981506746052241065367135947795258940752238184297959795341898063359int, m, 2645890960885531431010072250063095874303430496850392446743602951655533583260int, 17267888663515536428938655844294513651504131829384529986011757139956621242301int);
    lemma_fundamental_div_mod_converse(17267888663515536428938655844294513651504131829384529986011757139956621242301int * 3, m, 2int, 8027180246868058842323156042368990777119773173557942632657195630579411309737int);
    assert(mod_pow(3, 2301049256380771119331589410126514037901nat, 21888242871839275222246405745257275088696311157297823662689037894645226208583nat) == 8027180246868058842323156042368990777119773173557942632657195630579411309737nat);
    lemma_fundamental_div_mod_converse(8027180246868058842323156042368990777119773173557942632657195630579411309737int * 8027180246868058842323156042368990777119773173557942632657195630579411309737int, m, 2943846296525227040683735093379063634681431511547843717405507814717187213113int, 10212034316965056100430822952648859587002506051394821782324106526036740260290int);
    lemma_fundamental_div_mod_converse(10212034316965056100430822952648859587002506051394821782324106526036740260290int * 3, m, 1int, 8747860079055893079046063112689303672311206996886641684283281683464994572287int);
    assert(mod_pow(3, 4602098512761542238663178820253028075803nat, 21888242871839275222246405745257275088696311157297823662689037894645226208583nat) == 8747860079055893079046063112689303672311206996886641684283281683464994572287nat);
    lemma_fundamental_div_mod_converse(8747860079055893079046063112689303672311206996886641684283281683464994572287int * 8747860079055893079046063112689303672311206996886641684283281683464994572287int, m, 3496171730678048432756975768378466684122350033006312566853390817756740376075int, 9398797191655530708263999663757971217300241734376246434659498200824255558644int);
    lemma_fundamental_div_mod_converse(9398797191655530708263999663757971217300241734376246434659498200824255558644int * 3, m, 1int, 6308148703127316902545593246016638563204414045830915641289456707827540467349int);
    assert(mod_pow(3, 9204197025523084477326357640506056151607nat, 21888242871839275222246405745257275088696311157297823662689037894645226208583nat) == 6308148703127316902545593246016638563204414045830915641289456707827540467349nat);
    lemma_fundamental_div_mod_converse(6308148703127316902545593246016638563204414045830915641289456707827540467349int * 6308148703127316902545593246016638563204414045830915641289456707827540467349int, m, 1817996094696250734046546523270786006839421917643717357010991555589558501816int, 8016885354807576664762321594733373084054006202266334735416415652589934801073int);
    lemma_fundamental_div_mod_converse(8016885354807576664762321594733373084054006202266334735416415652589934801073int * 3, m, 1int, 2162413192583454772040559038942844163465707449501180543560209063124578194636int);
    assert(mod_pow(3, 18408394051046168954652715281012112303215nat, 21888242871839275222246405745257275088696311157297823662689037894645226208583nat) == 2162413192583454772040559038942844163465707449501180543560209063124578194636nat);
    lemma_fundamental_div_mod_converse(2162413192583454772040559038942844163465707449501180543560209063124578194636int * 2162413192583454772040559038942844163465707449501180543560209063124578194636int, m, 213632078318858733862507359174143499144650708563808982372575136262331407846int, 11742071018142220184544777365833653981106109565610719152948490426049860430278int);
    assert(mod_pow(3, 36816788102092337909305430562024224606430nat, 21888242871839275222246405745257275088696311157297823662689037894645226208583nat) == 11742071018142220184544777365833653981106109565610719152948490426049860430278nat);
    lemma_fundamental_div_mod_converse(11742071018142220184544777365833653981106109565610719152948490426049860430278int * 11742071018142220184544777365833653981106109565610719152948490426049860430278int, m, 6299100051218944496826932379956255306386944464322683825990708072710789673218int, 9319538574580668463548413392858498777863559111665770654500268545107622327190int);
    assert(mod_pow(3, 73633576204184675818610861124048449212860nat, 21888242871839275222246405745257275088696311157297823662689037894645226208583nat) == 9319538574580668463548413392858498777863559111665770654500268545107622327190nat);
    lemma_fundamental_div_mod_converse(9319538574580668463548413392858498777863559111665770654500268545107622327190int * 9319538574580668463548413392858498777863559111665770654500268545107622327190int, m, 3968057178077114808518772981263993119728916468088027725868739964110952129579int, 19796449691714207758256109838337085388629011318640626636522642869323515319543int);
    lemma_fundamental_div_mod_converse(19796449691714207758256109838337085388629011318640626636522642869323515319543int * 3, m, 2int, 15612863331464072830275518024496705988494411641326232584189852818680093541463int);
    assert(mod_pow(3, 147267152408369351637221722248096898425721nat, 21888242871839275222246405745257275088696311157297823662689037894645226208583nat) == 15612863331464072830275518024496705988494411641326232584189852818680093541463nat);
    lemma_fundamental_div_mod_converse(15612863331464072830275518024496705988494411641326232584189852818680093541463int * 15612863331464072830275518024496705988494411641326232584189852818680093541463int, m, 11136640927928998221722691487257910989671248789538605823899446505174120491162int, 12102058669913569990152433230822477364660361018843337004990461015618280136923int);
    lemma_fundamental_div_mod_converse(12102058669913569990152433230822477364660361018843337004990461015618280136923int * 3, m, 1int, 14417933137901434748210893947210157005284771899232187352282345152209614202186int);
    assert(mod_pow(3, 294534304816738703274443444496193796851443nat, 21888242871839275222246405745257275088696311157297823662689037894645226208583nat) == 14417933137901434748210893947210157005284771899232187352282345152209614202186nat);
    lemma_fundamental_div_mod_converse(14417933137901434748210893947210157005284771899232187352282345152209614202186int * 14417933137901434748210893947210157005284771899232187352282345152209614202186int, m, 9497189755530539159520896843788602793529085009888565236650559718501659677319int, 18773367792497137333005801717393519743388911393971586814960926563718949619int);
    lemma_fundamental_div_mod_converse(18773367792497137333005801717393519743388911393971586814960926563718949619int * 3, m, 0int, 56320103377491411999017405152180559230166734181914760444882779691156848857int);
    assert(mod_pow(3, 589068609633477406548886888992387593702887nat, 21888242871839275222246405745257275088696311157297823662689037894645226208583nat) == 56320103377491411999017405152180559230166734181914760444882779691156848857nat);
    lemma_fundamental_div_mod_converse(56320103377491411999017405152180559230166734181914760444882779691156848857int * 56320103377491411999017405152180559230166734181914760444882779691156848857int, m, 144915883062146384173130065886686952304427310574237435417059714116066049int, 8394814971871379157469571665700342483753683247240856983803376939934463507882int);
    lemma_fundamental_div_mod_converse(8394814971871379157469571665700342483753683247240856983803376939934463507882int * 3, m, 1int, 3296202043774862250162309251843752362564738584424747288721092925158164315063int);
    assert(mod_pow(3, 1178137219266954813097773777984775187405775nat, 21888242871839275222246405745257275088696311157297823662689037894645226208583nat) == 3296202043774862250162309251843752362564738584424747288721092925158164315063nat);
    lemma_fundamental_div_mod_converse(3296202043774862250162309251843752362564738584424747288721092925158164315063int * 3296202043774862250162309251843752362564738584424747288721092925158164315063int, m, 496382828763476447845369255619010384921311064531117420958602966166365345397int, 5101906386917481430220535307751533471000002195975972174943196963240367751518int);
    assert(mod_pow(3, 2356274438533909626195547555969550374811550nat, 21888242871839275222246405745257275088696311157297823662689037894645226208583nat) == 5101906386917481430220535307751533471000002195975972174943196963240367751518nat);
    lemma_fundamental_div_mod_converse(5101906386917481430220535307751533471000002195975972174943196963240367751518int * 5101906386917481430220535307751533471000002195975972174943196963240367751518int, m, 1189197732009729285764352478288419016660388667689772924417585255221147093776int, 6999449147067811992182984456315995826763548872655972641468443372581354224916int);
    assert(mod_pow(3, 4712548877067819252391095111939100749623100nat, 21888242871839275222246405745257275088696311157297823662689037894645226208583nat) == 6999449147067811992182984456315995826763548872655972641468443372581354224916nat);
    lemma_fundamental_div_mod_converse(6999449147067811992182984456315995826763548872655972641468443372581354224916int * 6999449147067811992182984456315995826763548872655972641468443372581354224916int, m, 2238292431660663722386437760513007805996209169608090188535097050230154696468int, 12791448802222846746600320906745182485114670435887939829697867600064293822212int);
    lemma_fundamental_div_mod_converse(12791448802222846746600320906745182485114670435887939829697867600064293822212int * 3, m, 1int, 16486103534829265017554556974978272366647700150365995826404564905547655258053int);
    assert(mod_pow(3, 9425097754135638504782190223878201499246201nat, 21888242871839275222246405745257275088696311157297823662689037894645226208583nat) == 16486103534829265017554556974978272366647700150365995826404564905547655258053nat);
    lemma_fundamental_div_mod_converse(16486103534829265017554556974978272366647700150365995826404564905547655258053int * 16486103534829265017554556974978272366647700150365995826404564905547655258053int, m, 12417242048734232699094320566063892242398253271826595538970970781159370819736int, 3393627013980378408491807860979473616059733247318954095569422519073992356721int);
    lemma_fundamental_div_mod_converse(3393627013980378408491807860979473616059733247318954095569422519073992356721int * 3, m, 0int, 10180881041941135225475423582938420848179199741956862286708267557221977070163int);
    assert(mod_pow(3, 18850195508271277009564380447756402998492403nat, 21888242871839275222246405745257275088696311157297823662689037894645226208583nat) == 10180881041941135225475423582938420848179199741956862286708267557221977070163nat);
    lemma_fundamental_div_mod_converse(10180881041941135225475423582938420848179199741956862286708267557221977070163int * 10180881041941135225475423582938420848179199741956862286708267557221977070163int, m, 4735434424638520470976272596022613372723990656309622986759911470868425922380int, 18198606392657855778080126650962061619787293932883718417117043197707377059029int);
    assert(mod_pow(3, 37700391016542554019128760895512805996984806nat, 21888242871839275222246405745257275088696311157297823662689037894645226208583nat) == 18198606392657855778080126650962061619787293932883718417117043197707377059029nat);
    lemma_fundamental_div_mod_converse(18198606392657855778080126650962061619787293932883718417117043197707377059029int * 18198606392657855778080126650962061619787293932883718417117043197707377059029int, m, 15130921041678730524734558682609578487405262846001922217348305133696966836764int, 4809890418876511421195405752622370871272558252738466116808893918194973677429int);
    lemma_fundamental_div_mod_converse(4809890418876511421195405752622370871272558252738466116808893918194973677429int * 3, m, 0int, 14429671256629534263586217257867112613817674758215398350426681754584921032287int);
    assert(mod_pow(3, 75400782033085108038257521791025611993969613nat, 21888242871839275222246405745257275088696311157297823662689037894645226208583nat) == 14429671256629534263586217257867112613817674758215398350426681754584921032287nat);
    lemma_fundamental_div_mod_converse(14429671256629534263586217257867112613817674758215398350426681754584921032287int * 14429671256629534263586217257867112613817674758215398350426681754584921032287int, m, 9512660006266832995219306151162023450769110353147236281383785052111804505352int, 3810117890912301870094865911148016083756604323551191418165689712921004614153int);
    assert(mod_pow(3, 150801564066170216076515043582051223987939226nat, 21888242871839275222246405745257275088696311157297823662689037894645226208583nat) == 3810117890912301870094865911148016083756604323551191418165689712921004614153nat);
    lemma_fundamental_div_mod_converse(3810117890912301870094865911148016083756604323551191418165689712921004614153int * 3810117890912301870094865911148016083756604323551191418165689712921004614153int, m, 663232696550855659805662869445279497331176637616167384740066405013873148376int, 11768462952744232312397816570186273100088551429859235964712053976360524196201int);
    lemma_fundamental_div_mod_converse(11768462952744232312397816570186273100088551429859235964712053976360524196201int * 3, m, 1int, 13417145986393421714947043965301544211569343132279884231447124034436346380020int);
    assert(mod_pow(3, 301603128132340432153030087164102447975878453nat, 21888242871839275222246405745257275088696311157297823662689037894645226208583nat) == 13417145986393421714947043965301544211569343132279884231447124034436346380020nat);
    lemma_fundamental_div_mod_converse(13417145986393421714947043965301544211569343132279884231447124034436346380020int * 13417145986393421714947043965301544211569343132279884231447124034436346380020int, m, 8224497849107884567889287337599014871380533755083788859999630469494642734575int, 16781096105172507685106075338304248050879448523004250365045408006603799343175int);
    assert(mod_pow(3, 603206256264680864306060174328204895951756906nat, 21888242871839275222246405745257275088696311157297823662689037894645226208583nat) == 16781096105172507685106075338304248050879448523004250365045408006603799343175nat);
    lemma_fundamental_div_mod_converse(16781096105172507685106075338304248050879448523004250365045408006603799343175int * 16781096105172507685106075338304248050879448523004250365045408006603799343175int, m, 12865591273813042438193126263557679719503161069152696544658940569029560448478int, 1154730528545082200968185094540831653547789485855498720502059764088366193951int);
    lemma_fundamental_div_mod_converse(1154730528545082200968185094540831653547789485855498720502059764088366193951int * 3, m, 0int, 3464191585635246602904555283622494960643368457566496161506179292265098581853int);
    assert(mod_pow(3, 1206412512529361728612120348656409791903513813nat, 21888242871839275222246405745257275088696311157297823662689037894645226208583nat) == 3464191585635246602904555283622494960643368457566496161506179292265098581853nat);
    lemma_fundamental_div_mod_converse(3464191585635246602904555283622494960643368457566496161506179292265098581853int * 3464191585635246602904555283622494960643368457566496161506179292265098581853int, m, 548268009097508169849895239386868824159242864874481130246724334495576735694int, 17278518763295889203120371567466431071116773490286138273655188860692635652007int);
    assert(mod_pow(3, 2412825025058723457224240697312819583807027626nat, 21888242871839275222246405745257275088696311157297823662689037894645226208583nat) == 17278518763295889203120371567466431071116773490286138273655188860692635652007nat);
    lemma_fundamental_div_mod_converse(17278518763295889203120371567466431071116773490286138273655188860692635652007int * 17278518763295889203120371567466431071116773490286138273655188860692635652007int, m, 13639615221817076728479914037777846984290961751089957592966767649197503851773int, 2130099285068090591268816126050190635974142381018720952428951582130390760390int);
    assert(mod_pow(3, 4825650050117446914448481394625639167614055252nat, 21888242871839275222246405745257275088696311157297823662689037894645226208583nat) == 2130099285068090591268816126050190635974142381018720952428951582130390760390nat);
    lemma_fundamental_div_mod_converse(2130099285068090591268816126050190635974142381018720952428951582130390760390int * 2130099285068090591268816126050190635974142381018720952428951582130390760390int, m, 207294984381097473453354139029946825119320641979769190540365949678336707429int, 10145151096985604262815024668327035664121899939181034435870947684992993288993int);
    assert(mod_pow(3, 9651300100234893828896962789251278335228110504nat, 21888242871839275222246405745257275088696311157297823662689037894645226208583nat) == 10145151096985604262815024668327035664121899939181034435870947684992993288993nat);
    lemma_fundamental_div_mod_converse(10145151096985604262815024668327035664121899939181034435870947684992993288993int * 10145151096985604262815024668327035664121899939181034435870947684992993288993int, m, 4702254602313788615800468640428111828735220384668505571206066640267835186972int, 4138898243807737032786911063598523518313199279769617905292386106073138773373int);
    assert(mod_pow(3, 19302600200469787657793925578502556670456221008nat, 21888242871839275222246405745257275088696311157297823662689037894645226208583nat) == 4138898243807737032786911063598523518313199279769617905292386106073138773373nat);
    lemma_fundamental_div_mod_converse(4138898243807737032786911063598523518313199279769617905292386106073138773373int * 4138898243807737032786911063598523518313199279769617905292386106073138773373int, m, 782633799017019535960742053384065541630165003844832670197937103946900675557int, 12752892467854275538470305882491418911066261364250672649114746445182562091398int);
    lemma_fundamental_div_mod_converse(12752892467854275538470305882491418911066261364250672649114746445182562091398int * 3, m, 1int, 16370434531723551393164511902216981644502472935454194284655201440902460065611int);
    assert(mod_pow(3, 38605200400939575315587851157005113340912442017nat, 21888242871839275222246405745257275088696311157297823662689037894645226208583nat) == 16370434531723551393164511902216981644502472935454194284655201440902460065611nat);
    lemma_fundamental_div_mod_converse(16370434531723551393164511902216981644502472935454194284655201440902460065611int * 16370434531723551393164511902216981644502472935454194284655201440902460065611int, m, 12243610797202723172023491027255046261059425466207727273051015826654764203658int, 5847691994741076445148662242308446229426078975422524803801054250491825206707int);
    assert(mod_pow(3, 77210400801879150631175702314010226681824884034nat, 21888242871839275222246405745257275088696311157297823662689037894645226208583nat) == 5847691994741076445148662242308446229426078975422524803801054250491825206707nat);
    lemma_fundamental_div_mod_converse(5847691994741076445148662242308446229426078975422524803801054250491825206707int * 5847691994741076445148662242308446229426078975422524803801054250491825206707int, m, 1562277148768014011762199023093393419099871499402358168602940980798465224481int, 16750678192658890579815629494898168324542761225311286748899139621133653863426int);
    assert(mod_pow(3, 154420801603758301262351404628020453363649768068nat, 21888242871839275222246405745257275088696311157297823662689037894645226208583nat) == 16750678192658890579815629494898168324542761225311286748899139621133653863426nat);
    lemma_fundamental_div_mod_converse(16750678192658890579815629494898168324542761225311286748899139621133653863426int * 16750678192658890579815629494898168324542761225311286748899139621133653863426int, m, 12818992440686512805793773452358366570972518247178514525090044803840087088235int, 1205913765391263944692007317678239031270607881875994442566230240294625136471int);
    lemma_fundamental_div_mod_converse(1205913765391263944692007317678239031270607881875994442566230240294625136471int * 3, m, 0int, 3617741296173791834076021953034717093811823645627983327698690720883875409413int);
    assert(mod_pow(3, 308841603207516602524702809256040906727299536137nat, 21888242871839275222246405745257275088696311157297823662689037894645226208583nat) == 3617741296173791834076021953034717093811823645627983327698690720883875409413nat);
    lemma_fundamental_div_mod_converse(3617741296173791834076021953034717093811823645627983327698690720883875409413int * 3617741296173791834076021953034717093811823645627983327698690720883875409413int, m, 597948961123777712256172035375624642434481190316870522160024127227815562545int, 6566218261474748921504445088884900234332256060543322823924100136884716680834int);
    assert(mod_pow(3, 617683206415033205049405618512081813454599072274nat, 21888242871839275222246405745257275088696311157297823662689037894645226208583nat) == 6566218261474748921504445088884900234332256060543322823924100136884716680834nat);
    lemma_fundamental_div_mod_converse(6566218261474748921504445088884900234332256060543322823924100136884716680834int * 6566218261474748921504445088884900234332256060543322823924100136884716680834int, m, 1969789101380776569825670831729095127258371480731348405916266850012336076882int, 14550048164649795906342328282711443985616885559391403589316292020568566657350int);
    lemma_fundamental_div_mod_converse(14550048164649795906342328282711443985616885559391403589316292020568566657350int * 3, m, 1int, 21761901622110112496780579102877056868154345520876387105259838167060473763467int);
    assert(mod_pow(3, 1235366412830066410098811237024163626909198144549nat, 21888242871839275222246405745257275088696311157297823662689037894645226208583nat) == 21761901622110112496780579102877056868154345520876387105259838167060473763467nat);
    lemma_fundamental_div_mod_converse(21761901622110112496780579102877056868154345520876387105259838167060473763467int * 21761901622110112496780579102877056868154345520876387105259838167060473763467int, m, 21636289627418761098365745057156263193870289754484116408073852704561912474950int, 16931291891366074363217473928895086184258718470995397101411796546384201364239int);
    lemma_fundamental_div_mod_converse(16931291891366074363217473928895086184258718470995397101411796546384201364239int * 3, m, 2int, 7017389930419672645159610296170708375383533098390543978857313849862151675551int);
    assert(mod_pow(3, 2470732825660132820197622474048327253818396289099nat, 21888242871839275222246405745257275088696311157297823662689037894645226208583nat) == 7017389930419672645159610296170708375383533098390543978857313849862151675551nat);
    lemma_fundamental_div_mod_converse(7017389930419672645159610296170708375383533098390543978857313849862151675551int * 7017389930419672645159610296170708375383533098390543978857313849862151675551int, m, 2249781388295489565046668196451795220056085618079452535025406699362231104984int, 12113382235152892688661232297378085739740720662134336941590759540739816275929int);
    assert(mod_pow(3, 4941465651320265640395244948096654507636792578198nat, 21888242871839275222246405745257275088696311157297823662689037894645226208583nat) == 12113382235152892688661232297378085739740720662134336941590759540739816275929nat);
    lemma_fundamental_div_mod_converse(12113382235152892688661232297378085739740720662134336941590759540739816275929int * 12113382235152892688661232297378085739740720662134336941590759540739816275929int, m, 6703782941101273906118640465495607222248763377672598973373531672985742199204int, 16699418200349054619833627084180079418193291634862960210278268464789024245109int);
    assert(mod_pow(3, 9882931302640531280790489896193309015273585156396nat, 21888242871839275222246405745257275088696311157297823662689037894645226208583nat) == 16699418200349054619833627084180079418193291634862960210278268464789024245109nat);
    lemma_fundamental_div_mod_converse(16699418200349054619833627084180079418193291634862960210278268464789024245109int * 16699418200349054619833627084180079418193291634862960210278268464789024245109int, m, 12740655787812705572236515283627622681244541564983318720468497134393195120061int, 10279360084883248047166239565094308361887159626754631536611055315530796738318int);
    lemma_fundamental_div_mod_converse(10279360084883248047166239565094308361887159626754631536611055315530796738318int * 3, m, 1int, 8949837382810468919252312950025649996965167722966070947144128051947164006371int);
    assert(mod_pow(3, 19765862605281062561580979792386618030547170312793nat, 21888242871839275222246405745257275088696311157297823662689037894645226208583nat) == 8949837382810468919252312950025649996965167722966070947144128051947164006371nat);
    lemma_fundamental_div_mod_converse(8949837382810468919252312950025649996965167722966070947144128051947164006371int * 8949837382810468919252312950025649996965167722966070947144128051947164006371int, m, 3659480098414174482078323639777087222602372805896423469734598937875022683772int, 4031626745062624767268779489721582199550168997616012768640779693434807374565int);
    lemma_fundamental_div_mod_converse(4031626745062624767268779489721582199550168997616012768640779693434807374565int * 3, m, 0int, 12094880235187874301806338469164746598650506992848038305922339080304422123695int);
    assert(mod_pow(3, 39531725210562125123161959584773236061094340625587nat, 21888242871839275222246405745257275088696311157297823662689037894645226208583nat) == 12094880235187874301806338469164746598650506992848038305922339080304422123695nat);
    lemma_fundamental_div_mod_converse(12094880235187874301806338469164746598650506992848038305922339080304422123695int * 12094880235187874301806338469164746598650506992848038305922339080304422123695int, m, 6683319842532696869489778882677364896141346126095806458386070361184549349900int, 1194684237781112329654943240667729595383796028855809442116534199539430261325int);
    assert(mod_pow(3, 79063450421124250246323919169546472122188681251174nat, 21888242871839275222246405745257275088696311157297823662689037894645226208583nat) == 1194684237781112329654943240667729595383796028855809442116534199539430261325nat);
    lemma_fundamental_div_mod_converse(1194684237781112329654943240667729595383796028855809442116534199539430261325int * 1194684237781112329654943240667729595383796028855809442116534199539430261325int, m, 65207172469696897515469302615192022534347778385767287576519645376846162278int, 11594347766440218340442444442356958609874358808505862095590618110469896323551int);
    assert(mod_pow(3, 158126900842248500492647838339092944244377362502348nat, 21888242871839275222246405745257275088696311157297823662689037894645226208583nat) == 11594347766440218340442444442356958609874358808505862095590618110469896323551nat);
    lemma_fundamental_div_mod_converse(11594347766440218340442444442356958609874358808505862095590618110469896323551int * 11594347766440218340442444442356958609874358808505862095590618110469896323551int, m, 6141603093325927693614343555873980789494178240415642314192713085444774911302int, 7176175232388852127002913197771957833599261921619155294652055871516501144535int);
    assert(mod_pow(3, 316253801684497000985295676678185888488754725004696nat, 21888242871839275222246405745257275088696311157297823662689037894645226208583nat) == 7176175232388852127002913197771957833599261921619155294652055871516501144535nat);
    lemma_fundamental_div_mod_converse(7176175232388852127002913197771957833599261921619155294652055871516501144535int * 7176175232388852127002913197771957833599261921619155294652055871516501144535int, m, 2352746689968715937337694054005337277392122460310694576967032626581474849828int, 609231033656755420677698821508013262911608355552264082629638345075230692501int);
    lemma_fundamental_div_mod_converse(609231033656755420677698821508013262911608355552264082629638345075230692501int * 3, m, 0int, 1827693100970266262033096464524039788734825066656792247888915035225692077503int);
    assert(mod_pow(3, 632507603368994001970591353356371776977509450009393nat, 21888242871839275222246405745257275088696311157297823662689037894645226208583nat) == 1827693100970266262033096464524039788734825066656792247888915035225692077503nat);
    lemma_fundamental_div_mod_converse(1827693100970266262033096464524039788734825066656792247888915035225692077503int * 1827693100970266262033096464524039788734825066656792247888915035225692077503int, m, 152614446527000179226758594480763534335888519260743773982521981378006539200int, 8453159309600466417643996826708134004632841375615694836956295227022992761409int);
    lemma_fundamental_div_mod_converse(8453159309600466417643996826708134004632841375615694836956295227022992761409int * 3, m, 1int, 3471235056962124030685584734867126925202212969549260848179847786423752075644int);
    assert(mod_pow(3, 1265015206737988003941182706712743553955018900018787nat, 21888242871839275222246405745257275088696311157297823662689037894645226208583nat) == 3471235056962124030685584734867126925202212969549260848179847786423752075644nat);
    lemma_fundamental_div_mod_converse(3471235056962124030685584734867126925202212969549260848179847786423752075644int * 3471235056962124030685584734867126925202212969549260848179847786423752075644int, m, 550499777037165152044052442313742208831416045017655274017596121513581307707int, 11825394431661591176980457886627026750084920117289498432350594408711610565555int);
    lemma_fundamental_div_mod_converse(11825394431661591176980457886627026750084920117289498432350594408711610565555int * 3, m, 1int, 13587940423145498308694967914623805161558449194570671634362745331489605488082int);
    assert(mod_pow(3, 2530030413475976007882365413425487107910037800037575nat, 21888242871839275222246405745257275088696311157297823662689037894645226208583nat) == 13587940423145498308694967914623805161558449194570671634362745331489605488082nat);
    lemma_fundamental_div_mod_converse(13587940423145498308694967914623805161558449194570671634362745331489605488082int * 13587940423145498308694967914623805161558449194570671634362745331489605488082int, m, 8435219127639219862773954347157606623042340762378642865631025620795676176457int, 15186638373867568054789193194785230081499024086962481297525143630845248108293int);
    assert(mod_pow(3, 5060060826951952015764730826850974215820075600075150nat, 21888242871839275222246405745257275088696311157297823662689037894645226208583nat) == 15186638373867568054789193194785230081499024086962481297525143630845248108293nat);
    lemma_fundamental_div_mod_converse(15186638373867568054789193194785230081499024086962481297525143630845248108293int * 15186638373867568054789193194785230081499024086962481297525143630845248108293int, m, 10536888979578776619000174321021509640056519539362065234394967880817138751346int, 11654707040967084519834925644934460688333337435378647376740453971668687371131int);
    assert(mod_pow(3, 10120121653903904031529461653701948431640151200150300nat, 21888242871839275222246405745257275088696311157297823662689037894645226208583nat) == 11654707040967084519834925644934460688333337435378647376740453971668687371131nat);
    lemma_fundamental_div_mod_converse(11654707040967084519834925644934460688333337435378647376740453971668687371131int * 11654707040967084519834925644934460688333337435378647376740453971668687371131int, m, 6205714958761041806922916683564996643748559210947211571798919344191198374784int, 17536464438148132813228235285837863528790490756371270767648425814975940648089int);
    lemma_fundamental_div_mod_converse(17536464438148132813228235285837863528790490756371270767648425814975940648089int * 3, m, 2int, 8832907570765847995191894366999040408978849954518164977567201655637369527101int);
    assert(mod_pow(3, 20240243307807808063058923307403896863280302400300601nat, 21888242871839275222246405745257275088696311157297823662689037894645226208583nat) == 8832907570765847995191894366999040408978849954518164977567201655637369527101nat);
    lemma_fundamental_div_mod_converse(8832907570765847995191894366999040408978849954518164977567201655637369527101int * 8832907570765847995191894366999040408978849954518164977567201655637369527101int, m, 3564482384927802561350812323887402106476332687961992432339969000833258475891int, 2074533028216865432783541818742692671051706313268858469770470664153330691748int);
    lemma_fundamental_div_mod_converse(2074533028216865432783541818742692671051706313268858469770470664153330691748int * 3, m, 0int, 6223599084650596298350625456228078013155118939806575409311411992459992075244int);
    assert(mod_pow(3, 40480486615615616126117846614807793726560604800601203nat, 21888242871839275222246405745257275088696311157297823662689037894645226208583nat) == 6223599084650596298350625456228078013155118939806575409311411992459992075244nat);
    lemma_fundamental_div_mod_converse(6223599084650596298350625456228078013155118939806575409311411992459992075244int * 6223599084650596298350625456228078013155118939806575409311411992459992075244int, m, 1769588623136882234405504928148074455214613145168229979802752792769205828479int, 21043225670708221513724391643459768933808993555481777844903804091831182024279int);
    lemma_fundamental_div_mod_converse(21043225670708221513724391643459768933808993555481777844903804091831182024279int * 3, m, 2int, 19353191268446114096680363439864756624034358351849686209333336486203093655671int);
    assert(mod_pow(3, 80960973231231232252235693229615587453121209601202407nat, 21888242871839275222246405745257275088696311157297823662689037894645226208583nat) == 19353191268446114096680363439864756624034358351849686209333336486203093655671nat);
    lemma_fundamental_div_mod_converse(19353191268446114096680363439864756624034358351849686209333336486203093655671int * 19353191268446114096680363439864756624034358351849686209333336486203093655671int, m, 17111744166313963403609222688387749438234931376283267883736809153840086067061int, 8775105754610332543010251624126336607635647843300999160835939519637798675678int);
    lemma_fundamental_div_mod_converse(8775105754610332543010251624126336607635647843300999160835939519637798675678int * 3, m, 1int, 4437074391991722406784349127121734734210632372605173819818780664268169818451int);
    assert(mod_pow(3, 161921946462462464504471386459231174906242419202404815nat, 21888242871839275222246405745257275088696311157297823662689037894645226208583nat) == 4437074391991722406784349127121734734210632372605173819818780664268169818451nat);
    lemma_fundamental_div_mod_converse(4437074391991722406784349127121734734210632372605173819818780664268169818451int * 4437074391991722406784349127121734734210632372605173819818780664268169818451int, m, 899461380949779092015461070814017506429187838407622005435785849704390634262int, 12069085421084323583996795006069325590845159988425615738955749954797421768655int);
    assert(mod_pow(3, 323843892924924929008942772918462349812484838404809630nat, 21888242871839275222246405745257275088696311157297823662689037894645226208583nat) == 12069085421084323583996795006069325590845159988425615738955749954797421768655nat);
    lemma_fundamental_div_mod_converse(12069085421084323583996795006069325590845159988425615738955749954797421768655int * 12069085421084323583996795006069325590845159988425615738955749954797421768655int, m, 6654843139045910825273470177790380844465852589360097397830559247015648207947int, 7778743343904691679994632517581163127245093712782918267978266361107160299924int);
    assert(mod_pow(3, 647687785849849858017885545836924699624969676809619260nat, 21888242871839275222246405745257275088696311157297823662689037894645226208583nat) == 7778743343904691679994632517581163127245093712782918267978266361107160299924nat);
    lemma_fundamental_div_mod_converse(7778743343904691679994632517581163127245093712782918267978266361107160299924int * 7778743343904691679994632517581163127245093712782918267978266361107160299924int, m, 2764445203054207925601037359044419178954621718763737452794290963202452036810int, 2159186587447620052533422273390643564791226391581235213693269307979380465546int);
    lemma_fundamental_div_mod_converse(2159186587447620052533422273390643564791226391581235213693269307979380465546int * 3, m, 0int, 6477559762342860157600266820171930694373679174743705641079807923938141396638int);
    assert(mod_pow(3, 1295375571699699716035771091673849399249939353619238521nat, 21888242871839275222246405745257275088696311157297823662689037894645226208583nat) == 6477559762342860157600266820171930694373679174743705641079807923938141396638nat);
    lemma_fundamental_div_mod_converse(6477559762342860157600266820171930694373679174743705641079807923938141396638int * 6477559762342860157600266820171930694373679174743705641079807923938141396638int, m, 1916955176365762009100000082187716090181091811777396690472372283678165021510int, 17493721450134511894070993199191245399646002500463094755034355282391296082714int);
    assert(mod_pow(3, 2590751143399399432071542183347698798499878707238477042nat, 21888242871839275222246405745257275088696311157297823662689037894645226208583nat) == 17493721450134511894070993199191245399646002500463094755034355282391296082714nat);
    lemma_fundamental_div_mod_converse(17493721450134511894070993199191245399646002500463094755034355282391296082714int * 17493721450134511894070993199191245399646002500463094755034355282391296082714int, m, 13981491888900103296044282233345432310608610689145925118055911043481884288854int, 4082078165179950238185352955919727486262674897878629537998926825339903571914int);
    lemma_fundamental_div_mod_converse(4082078165179950238185352955919727486262674897878629537998926825339903571914int * 3, m, 0int, 12246234495539850714556058867759182458788024693635888613996780476019710715742int);
    assert(mod_pow(3, 5181502286798798864143084366695397596999757414476954085nat, 21888242871839275222246405745257275088696311157297823662689037894645226208583nat) == 12246234495539850714556058867759182458788024693635888613996780476019710715742nat);
    lemma_fundamental_div_mod_converse(12246234495539850714556058867759182458788024693635888613996780476019710715742int * 12246234495539850714556058867759182458788024693635888613996780476019710715742int, m, 6851635382422460242009761857470077255294100959196972237808773939728660444825int, 2957132001603049631502479554396824950780063170402554535430885553224913677589int);
    lemma_fundamental_div_mod_converse(2957132001603049631502479554396824950780063170402554535430885553224913677589int * 3, m, 0int, 8871396004809148894507438663190474852340189511207663606292656659674741032767int);
    assert(mod_pow(3, 10363004573597597728286168733390795193999514828953908171nat, 21888242871839275222246405745257275088696311157297823662689037894645226208583nat) == 8871396004809148894507438663190474852340189511207663606292656659674741032767nat);
    lemma_fundamental_div_mod_converse(8871396004809148894507438663190474852340189511207663606292656659674741032767int * 8871396004809148894507438663190474852340189511207663606292656659674741032767int, m, 3595613751864879835958702064731655322183751081910400275871603080507267116159int, 534863779251448479373843804059527353330310664251698717256949321373943883592int);
    lemma_fundamental_div_mod_converse(534863779251448479373843804059527353330310664251698717256949321373943883592int * 3, m, 0int, 1604591337754345438121531412178582059990931992755096151770847964121831650776int);
    assert(mod_pow(3, 20726009147195195456572337466781590387999029657907816343nat, 21888242871839275222246405745257275088696311157297823662689037894645226208583nat) == 1604591337754345438121531412178582059990931992755096151770847964121831650776nat);
    lemma_fundamental_div_mod_converse(1604591337754345438121531412178582059990931992755096151770847964121831650776int * 1604591337754345438121531412178582059990931992755096151770847964121831650776int, m, 117629970403372355756535606031514403416802684710949671952130751234644157976int, 9805238286063408864763034434744534694368262146963302819120852464800242294168int);
    assert(mod_pow(3, 41452018294390390913144674933563180775998059315815632686nat, 21888242871839275222246405745257275088696311157297823662689037894645226208583nat) == 9805238286063408864763034434744534694368262146963302819120852464800242294168nat);
    lemma_fundamental_div_mod_converse(9805238286063408864763034434744534694368262146963302819120852464800242294168int * 9805238286063408864763034434744534694368262146963302819120852464800242294168int, m, 4392435629000529170168315319688346002912064058470141954133719718428955659425int, 18293540431411951564840501836935977694594279415775553262534364954250486967449int);
    assert(mod_pow(3, 82904036588780781826289349867126361551996118631631265372nat, 21888242871839275222246405745257275088696311157297823662689037894645226208583nat) == 18293540431411951564840501836935977694594279415775553262534364954250486967449nat);
    lemma_fundamental_div_mod_converse(18293540431411951564840501836935977694594279415775553262534364954250486967449int * 18293540431411951564840501836935977694594279415775553262534364954250486967449int, m, 15289195367356718879826319959078969063159334428881704712608743328872829353438int, 13707174163822656536949630299595308792033482636860292360601347299044369409247int);
    lemma_fundamental_div_mod_converse(13707174163822656536949630299595308792033482636860292360601347299044369409247int * 3, m, 1int, 19233279619628694388602485153528651287404136753283053419115004002487882019158int);
    assert(mod_pow(3, 165808073177561563652578699734252723103992237263262530745nat, 21888242871839275222246405745257275088696311157297823662689037894645226208583nat) == 19233279619628694388602485153528651287404136753283053419115004002487882019158nat);
    lemma_fundamental_div_mod_converse(19233279619628694388602485153528651287404136753283053419115004002487882019158int * 19233279619628694388602485153528651287404136753283053419115004002487882019158int, m, 16900353632440304397071113654126871629624745687688877308455911140954724732821int, 14360457226319417102014360589714168983417361841651734808388952057175587026321int);
    assert(mod_pow(3, 331616146355123127305157399468505446207984474526525061490nat, 21888242871839275222246405745257275088696311157297823662689037894645226208583nat) == 14360457226319417102014360589714168983417361841651734808388952057175587026321nat);
    lemma_fundamental_div_mod_converse(14360457226319417102014360589714168983417361841651734808388952057175587026321int * 14360457226319417102014360589714168983417361841651734808388952057175587026321int, m, 9421621139551098741175150025269184180797694407728157792368705329670379422926int, 17904030544722941137180646375378186392784185665187784457532618388649098621183int);
    assert(mod_pow(3, 663232292710246254610314798937010892415968949053050122980nat, 21888242871839275222246405745257275088696311157297823662689037894645226208583nat) == 17904030544722941137180646375378186392784185665187784457532618388649098621183nat);
    lemma_fundamental_div_mod_converse(17904030544722941137180646375378186392784185665187784457532618388649098621183int * 17904030544722941137180646375378186392784185665187784457532618388649098621183int, m, 14645045361717323967048712336006527759895690629788359260022951075117512502112int, 5311865137002877101599454419589675100820684743065617339453990977844196292193int);
    lemma_fundamental_div_mod_converse(5311865137002877101599454419589675100820684743065617339453990977844196292193int * 3, m, 0int, 15935595411008631304798363258769025302462054229196852018361972933532588876579int);
    assert(mod_pow(3, 1326464585420492509220629597874021784831937898106100245961nat, 21888242871839275222246405745257275088696311157297823662689037894645226208583nat) == 15935595411008631304798363258769025302462054229196852018361972933532588876579nat);
    lemma_fundamental_div_mod_converse(15935595411008631304798363258769025302462054229196852018361972933532588876579int * 15935595411008631304798363258769025302462054229196852018361972933532588876579int, m, 11601808449872176974257626999711283909065564670121295039628052032530673653018int, 15227911621987233499466965635496639899410094568820449932179179989986659289747int);
    assert(mod_pow(3, 2652929170840985018441259195748043569663875796212200491922nat, 21888242871839275222246405745257275088696311157297823662689037894645226208583nat) == 15227911621987233499466965635496639899410094568820449932179179989986659289747nat);
    lemma_fundamental_div_mod_converse(15227911621987233499466965635496639899410094568820449932179179989986659289747int * 15227911621987233499466965635496639899410094568820449932179179989986659289747int, m, 10594239735223119532060794912999250393500892260858346787175871600528534189928int, 8892111509987219658761375375952885586142147169770417450291913704323833571985int);
    lemma_fundamental_div_mod_converse(8892111509987219658761375375952885586142147169770417450291913704323833571985int * 3, m, 1int, 4788091658122383754037720382601381669730130352013428688186703218326274507372int);
    assert(mod_pow(3, 5305858341681970036882518391496087139327751592424400983845nat, 21888242871839275222246405745257275088696311157297823662689037894645226208583nat) == 4788091658122383754037720382601381669730130352013428688186703218326274507372nat);
    lemma_fundamental_div_mod_converse(4788091658122383754037720382601381669730130352013428688186703218326274507372int * 4788091658122383754037720382601381669730130352013428688186703218326274507372int, m, 1047403478699370579558723619785050939307409943414376804968051023027233068339int, 15504049206350908068356376510917731576933280627372885425670642445386574992747int);
    lemma_fundamental_div_mod_converse(15504049206350908068356376510917731576933280627372885425670642445386574992747int * 3, m, 2int, 2735661875374173760576318042238644553407219567523008951633851546869272561075int);
    assert(mod_pow(3, 10611716683363940073765036782992174278655503184848801967691nat, 21888242871839275222246405745257275088696311157297823662689037894645226208583nat) == 2735661875374173760576318042238644553407219567523008951633851546869272561075nat);
    lemma_fundamental_div_mod_converse(2735661875374173760576318042238644553407219567523008951633851546869272561075int * 2735661875374173760576318042238644553407219567523008951633851546869272561075int, m, 341911680174392716178163936419639567903401059015599961611484037541670426155int, 3065059481951054197184207659641122940666768946877595166210566827361076467260int);
    lemma_fundamental_div_mod_converse(3065059481951054197184207659641122940666768946877595166210566827361076467260int * 3, m, 0int, 9195178445853162591552622978923368822000306840632785498631700482083229401780int);
    assert(mod_pow(3, 21223433366727880147530073565984348557311006369697603935383nat, 21888242871839275222246405745257275088696311157297823662689037894645226208583nat) == 9195178445853162591552622978923368822000306840632785498631700482083229401780nat);
    lemma_fundamental_div_mod_converse(9195178445853162591552622978923368822000306840632785498631700482083229401780int * 9195178445853162591552622978923368822000306840632785498631700482083229401780int, m, 3862864056569092355992491434171821560769784258409860766299401882920254066055int, 17016596888724706533857840150504933527529001246200681962201565890899377218335int);
    lemma_fundamental_div_mod_converse(17016596888724706533857840150504933527529001246200681962201565890899377218335int * 3, m, 2int, 7273304922495569157080708961000250405194381424006398561226621883407679237839int);
    assert(mod_pow(3, 42446866733455760295060147131968697114622012739395207870767nat, 21888242871839275222246405745257275088696311157297823662689037894645226208583nat) == 7273304922495569157080708961000250405194381424006398561226621883407679237839nat);
    lemma_fundamental_div_mod_converse(7273304922495569157080708961000250405194381424006398561226621883407679237839int * 7273304922495569157080708961000250405194381424006398561226621883407679237839int, m, 2416866662406190410449403849818652903677478367664404934824325546324418302956int, 13822881784114076811138638649363437137532315925243693071489655045756987918573int);
    lemma_fundamental_div_mod_converse(13822881784114076811138638649363437137532315925243693071489655045756987918573int * 3, m, 1int, 19580402480502955211169510202833036323900636618433255551779927242625737547136int);
    assert(mod_pow(3, 84893733466911520590120294263937394229244025478790415741535nat, 21888242871839275222246405745257275088696311157297823662689037894645226208583nat) == 19580402480502955211169510202833036323900636618433255551779927242625737547136nat);
    lemma_fundamental_div_mod_converse(19580402480502955211169510202833036323900636618433255551779927242625737547136int * 19580402480502955211169510202833036323900636618433255551779927242625737547136int, m, 17515894882167383857991460169569204771184049040176440589841087392150097882451int, 14255804377107279703351785468985139975617306100007450079931264379582280525563int);
    assert(mod_pow(3, 169787466933823041180240588527874788458488050957580831483070nat, 21888242871839275222246405745257275088696311157297823662689037894645226208583nat) == 14255804377107279703351785468985139975617306100007450079931264379582280525563nat);
    lemma_fundamental_div_mod_converse(14255804377107279703351785468985139975617306100007450079931264379582280525563int * 14255804377107279703351785468985139975617306100007450079931264379582280525563int, m, 9284800046687062934112947940624741776673571675102287260378553633705863208806int, 10664590130466316956405041746211637788750360590176357556371882604797658085071int);
    assert(mod_pow(3, 339574933867646082360481177055749576916976101915161662966140nat, 21888242871839275222246405745257275088696311157297823662689037894645226208583nat) == 10664590130466316956405041746211637788750360590176357556371882604797658085071nat);
    lemma_fundamental_div_mod_converse(10664590130466316956405041746211637788750360590176357556371882604797658085071int * 10664590130466316956405041746211637788750360590176357556371882604797658085071int, m, 5196099262822302496465001669619208168145087274374990260220226660707100129016int, 191309089322728575648334590207593305572211912674625910722540029590846530713int);
    assert(mod_pow(3, 679149867735292164720962354111499153833952203830323325932280nat, 21888242871839275222246405745257275088696311157297823662689037894645226208583nat) == 191309089322728575648334590207593305572211912674625910722540029590846530713nat);
    lemma_fundamental_div_mod_converse(191309089322728575648334590207593305572211912674625910722540029590846530713int * 191309089322728575648334590207593305572211912674625910722540029590846530713int, m, 1672092541726091616871522247912262754849655274390377316249355125580009939int, 10345208132517137197061111070220870190003960594303017520576088091831625181932int);
    assert(mod_pow(3, 1358299735470584329441924708222998307667904407660646651864560nat, 21888242871839275222246405745257275088696311157297823662689037894645226208583nat) == 10345208132517137197061111070220870190003960594303017520576088091831625181932nat);
    lemma_fundamental_div_mod_converse(10345208132517137197061111070220870190003960594303017520576088091831625181932int * 10345208132517137197061111070220870190003960594303017520576088091831625181932int, m, 4889535077426958054438106267719618337347968360317170210741823715447224396553int, 2826298343386772060831066756385086166439768781786486727800759846719815038225int);
    lemma_fundamental_div_mod_converse(2826298343386772060831066756385086166439768781786486727800759846719815038225int * 3, m, 0int, 8478895030160316182493200269155258499319306345359460183402279540159445114675int);
    assert(mod_pow(3, 2716599470941168658883849416445996615335808815321293303729121nat, 21888242871839275222246405745257275088696311157297823662689037894645226208583nat) == 8478895030160316182493200269155258499319306345359460183402279540159445114675nat);
    lemma_fundamental_div_mod_converse(8478895030160316182493200269155258499319306345359460183402279540159445114675int * 8478895030160316182493200269155258499319306345359460183402279540159445114675int, m, 3284487537598134871220235110571939672969966203324656038109620763807006176982int, 21119755053982014489735038553337813748554268176258715164999542979566554919119int);
    lemma_fundamental_div_mod_converse(21119755053982014489735038553337813748554268176258715164999542979566554919119int * 3, m, 2int, 19582779418267493024712304169498891068270182214180498169620553149409212340191int);
    assert(mod_pow(3, 5433198941882337317767698832891993230671617630642586607458243nat, 21888242871839275222246405745257275088696311157297823662689037894645226208583nat) == 19582779418267493024712304169498891068270182214180498169620553149409212340191nat);
    lemma_fundamental_div_mod_converse(19582779418267493024712304169498891068270182214180498169620553149409212340191int * 19582779418267493024712304169498891068270182214180498169620553149409212340191int, m, 17520147779331386723645272446834030286410477734016638908598737753029217085233int, 20942050583157151096008049347731651553829182127328752545512179850859766761642int);
    lemma_fundamental_div_mod_converse(20942050583157151096008049347731651553829182127328752545512179850859766761642int * 3, m, 2int, 19049666005792902843531336552680404484094924067390610311158463763288847867760int);
    assert(mod_pow(3, 10866397883764674635535397665783986461343235261285173214916487nat, 21888242871839275222246405745257275088696311157297823662689037894645226208583nat) == 19049666005792902843531336552680404484094924067390610311158463763288847867760nat);
    lemma_fundamental_div_mod_converse(19049666005792902843531336552680404484094924067390610311158463763288847867760int * 19049666005792902843531336552680404484094924067390610311158463763288847867760int, m, 16579209992189199359425261465366236037741861048973292841861171625368814754489int, 14113360104975268484423671907506511106719214180217788416777443220090997838513int);
    assert(mod_pow(3, 21732795767529349271070795331567972922686470522570346429832974nat, 21888242871839275222246405745257275088696311157297823662689037894645226208583nat) == 14113360104975268484423671907506511106719214180217788416777443220090997838513nat);
    lemma_fundamental_div_mod_converse(14113360104975268484423671907506511106719214180217788416777443220090997838513int * 14113360104975268484423671907506511106719214180217788416777443220090997838513int, m, 9100179243212581698405487038391927295642551563897881821328656731233775241288int, 16754989828220921619516517067311667916049344203741759152777868092205784476265int);
    lemma_fundamental_div_mod_converse(16754989828220921619516517067311667916049344203741759152777868092205784476265int * 3, m, 2int, 6488483740984214414056739711420453570755410296629630132955528487326901011629int);
    assert(mod_pow(3, 43465591535058698542141590663135945845372941045140692859665949nat, 21888242871839275222246405745257275088696311157297823662689037894645226208583nat) == 6488483740984214414056739711420453570755410296629630132955528487326901011629nat);
    lemma_fundamental_div_mod_converse(6488483740984214414056739711420453570755410296629630132955528487326901011629int * 6488483740984214414056739711420453570755410296629630132955528487326901011629int, m, 1923426266033514446863266073424230749040197678287280590643556536711397038406int, 3038639250646395085560738166192614618018840511026125169911502710185375394943int);
    assert(mod_pow(3, 86931183070117397084283181326271891690745882090281385719331898nat, 21888242871839275222246405745257275088696311157297823662689037894645226208583nat) == 3038639250646395085560738166192614618018840511026125169911502710185375394943nat);
    lemma_fundamental_div_mod_converse(3038639250646395085560738166192614618018840511026125169911502710185375394943int * 3038639250646395085560738166192614618018840511026125169911502710185375394943int, m, 421839640104149038921773375342030037218232297480438158394087027694034034571int, 18764241382018047428857624977988788495240684923137395092203293141464151050356int);
    lemma_fundamental_div_mod_converse(18764241382018047428857624977988788495240684923137395092203293141464151050356int * 3, m, 2int, 12516238402375591842080063443451815308329432454816537951231803635102000733902int);
    assert(mod_pow(3, 173862366140234794168566362652543783381491764180562771438663797nat, 21888242871839275222246405745257275088696311157297823662689037894645226208583nat) == 12516238402375591842080063443451815308329432454816537951231803635102000733902nat);
    lemma_fundamental_div_mod_converse(12516238402375591842080063443451815308329432454816537951231803635102000733902int * 12516238402375591842080063443451815308329432454816537951231803635102000733902int, m, 7157094548994176114582837051863126167734731846341053614872519680940666064257int, 20163853752173348344282218184795396177163154964394068780400050875309849227773int);
    assert(mod_pow(3, 347724732280469588337132725305087566762983528361125542877327594nat, 21888242871839275222246405745257275088696311157297823662689037894645226208583nat) == 20163853752173348344282218184795396177163154964394068780400050875309849227773nat);
    lemma_fundamental_div_mod_converse(20163853752173348344282218184795396177163154964394068780400050875309849227773int * 20163853752173348344282218184795396177163154964394068780400050875309849227773int, m, 18575314634420908309120228901024723399929818601544664542906933615268387988673int, 11770570048414552868437267520599100975465532625895801335097490133827495159170int);
    lemma_fundamental_div_mod_converse(11770570048414552868437267520599100975465532625895801335097490133827495159170int * 3, m, 1int, 13423467273404383383065396816540027837700286720389580342603432506837259268927int);
    assert(mod_pow(3, 695449464560939176674265450610175133525967056722251085754655189nat, 21888242871839275222246405745257275088696311157297823662689037894645226208583nat) == 13423467273404383383065396816540027837700286720389580342603432506837259268927nat);
    lemma_fundamental_div_mod_converse(13423467273404383383065396816540027837700286720389580342603432506837259268927int * 13423467273404383383065396816540027837700286720389580342603432506837259268927int, m, 8232249372195363366423474721194811729146972200142010915406271594188453222633int, 8755996225477699616363573441539907698230933812514666904955860989435913272290int);
    lemma_fundamental_div_mod_converse(8755996225477699616363573441539907698230933812514666904955860989435913272290int * 3, m, 1int, 4379745804593823626844314579362448005996490280246177052178545073662513608287int);
    assert(mod_pow(3, 1390898929121878353348530901220350267051934113444502171509310379nat, 21888242871839275222246405745257275088696311157297823662689037894645226208583nat) == 4379745804593823626844314579362448005996490280246177052178545073662513608287nat);
    lemma_fundamental_div_mod_converse(4379745804593823626844314579362448005996490280246177052178545073662513608287int * 4379745804593823626844314579362448005996490280246177052178545073662513608287int, m, 876368807910861602130397776490533815646805735250585255254107720221247293375int, 11367461059669623382419018092012345169999509979773777511780655793858531036744int);
    lemma_fundamental_div_mod_converse(11367461059669623382419018092012345169999509979773777511780655793858531036744int * 3, m, 1int, 12214140307169594925010648530779760421302218782023508872652929486930366901649int);
    assert(mod_pow(3, 2781797858243756706697061802440700534103868226889004343018620759nat, 21888242871839275222246405745257275088696311157297823662689037894645226208583nat) == 12214140307169594925010648530779760421302218782023508872652929486930366901649nat);
    lemma_fundamental_div_mod_converse(12214140307169594925010648530779760421302218782023508872652929486930366901649int * 12214140307169594925010648530779760421302218782023508872652929486930366901649int, m, 6815769740711438398950468771227282928642238238751834131640709366586634624765int, 5009621545464371681309386827882056024996797823694120886905248463328211561206int);
    lemma_fundamental_div_mod_converse(5009621545464371681309386827882056024996797823694120886905248463328211561206int * 3, m, 0int, 15028864636393115043928160483646168074990393471082362660715745389984634683618int);
    assert(mod_pow(3, 5563595716487513413394123604881401068207736453778008686037241519nat, 21888242871839275222246405745257275088696311157297823662689037894645226208583nat) == 15028864636393115043928160483646168074990393471082362660715745389984634683618nat);
    lemma_fundamental_div_mod_converse(15028864636393115043928160483646168074990393471082362660715745389984634683618int * 15028864636393115043928160483646168074990393471082362660715745389984634683618int, m, 10319091102082965396076721278517773697731723604150642307176809936429344949054int, 20987115911157257984767588441071838333382348236426433880807188371145245039442int);
    lemma_fundamental_div_mod_converse(20987115911157257984767588441071838333382348236426433880807188371145245039442int * 3, m, 2int, 19184861989793223509809953832700964822754422394683654317043489324145282701160int);
    assert(mod_pow(3, 11127191432975026826788247209762802136415472907556017372074483039nat, 21888242871839275222246405745257275088696311157297823662689037894645226208583nat) == 19184861989793223509809953832700964822754422394683654317043489324145282701160nat);
    lemma_fundamental_div_mod_converse(19184861989793223509809953832700964822754422394683654317043489324145282701160int * 19184861989793223509809953832700964822754422394683654317043489324145282701160int, m, 16815371234798652779242365791486861593186217295315552604121663225123755925494int, 8217431547874073131329283203808713550726851811267271482804198529172014030598int);
    assert(mod_pow(3, 22254382865950053653576494419525604272830945815112034744148966078nat, 21888242871839275222246405745257275088696311157297823662689037894645226208583nat) == 8217431547874073131329283203808713550726851811267271482804198529172014030598nat);
    lemma_fundamental_div_mod_converse(8217431547874073131329283203808713550726851811267271482804198529172014030598int * 8217431547874073131329283203808713550726851811267271482804198529172014030598int, m, 3085043492955441671831157256734313151757980398198946512448248850453195761362int, 6433255799271937617639760666414238764059277082178194851931293379080376067558int);
    assert(mod_pow(3, 44508765731900107307152988839051208545661891630224069488297932156nat, 21888242871839275222246405745257275088696311157297823662689037894645226208583nat) == 6433255799271937617639760666414238764059277082178194851931293379080376067558nat);
    lemma_fundamental_div_mod_converse(6433255799271937617639760666414238764059277082178194851931293379080376067558int * 6433255799271937617639760666414238764059277082178194851931293379080376067558int, m, 1890822411885466898628180883034619081920550252838669308916864952736165568054int, 21538991910392324757347074594129762809968422922629405620275069543255294675882int);
    assert(mod_pow(3, 89017531463800214614305977678102417091323783260448138976595864312nat, 21888242871839275222246405745257275088696311157297823662689037894645226208583nat) == 21538991910392324757347074594129762809968422922629405620275069543255294675882nat);
    lemma_fundamental_div_mod_converse(21538991910392324757347074594129762809968422922629405620275069543255294675882int * 21538991910392324757347074594129762809968422922629405620275069543255294675882int, m, 21195313631722416668285447574356112278253132001347104439974596073891149166348int, 1291821035757068924555813282084515667662998176326479605620011830074220113040int);
    lemma_fundamental_div_mod_converse(1291821035757068924555813282084515667662998176326479605620011830074220113040int * 3, m, 0int, 3875463107271206773667439846253547002988994528979438816860035490222660339120int);
    assert(mod_pow(3, 178035062927600429228611955356204834182647566520896277953191728625nat, 21888242871839275222246405745257275088696311157297823662689037894645226208583nat) == 3875463107271206773667439846253547002988994528979438816860035490222660339120nat);
    lemma_fundamental_div_mod_converse(3875463107271206773667439846253547002988994528979438816860035490222660339120int * 3875463107271206773667439846253547002988994528979438816860035490222660339120int, m, 686177249757377547179918946405844326621254046627031817811581538477831293841int, 18363485411832823713381917809343781507408575843791581130341338641695573137097int);
    assert(mod_pow(3, 356070125855200858457223910712409668365295133041792555906383457250nat, 21888242871839275222246405745257275088696311157297823662689037894645226208583nat) == 18363485411832823713381917809343781507408575843791581130341338641695573137097nat);
    lemma_fundamental_div_mod_converse(18363485411832823713381917809343781507408575843791581130341338641695573137097int * 18363485411832823713381917809343781507408575843791581130341338641695573137097int, m, 15406334736190746653435284423360631498126580867256154400273604778550797753363int, 8992759338861971634817516639110481755645578297045498951719826210519129872780int);
    assert(mod_pow(3, 712140251710401716914447821424819336730590266083585111812766914500nat, 21888242871839275222246405745257275088696311157297823662689037894645226208583nat) == 8992759338861971634817516639110481755645578297045498951719826210519129872780nat);
    lemma_fundamental_div_mod_converse(8992759338861971634817516639110481755645578297045498951719826210519129872780int * 8992759338861971634817516639110481755645578297045498951719826210519129872780int, m, 3694664802478669671085880294794562227219762982480168550708569372572184446509int, 2828955102927530536723857334571056324866045656560561078612219459414544741653int);
    lemma_fundamental_div_mod_converse(2828955102927530536723857334571056324866045656560561078612219459414544741653int * 3, m, 0int, 8486865308782591610171572003713168974598136969681683235836658378243634224959int);
    assert(mod_pow(3, 1424280503420803433828895642849638673461180532167170223625533829001nat, 21888242871839275222246405745257275088696311157297823662689037894645226208583nat) == 8486865308782591610171572003713168974598136969681683235836658378243634224959nat);
    lemma_fundamental_div_mod_converse(8486865308782591610171572003713168974598136969681683235836658378243634224959int * 8486865308782591610171572003713168974598136969681683235836658378243634224959int, m, 3290665367300221059874722318348139957858001255072457013275556991050811057014int, 17231751839875971872007946980099583469184604996142141600230780635134749400519int);
    assert(mod_pow(3, 2848561006841606867657791285699277346922361064334340447251067658002nat, 21888242871839275222246405745257275088696311157297823662689037894645226208583nat) == 17231751839875971872007946980099583469184604996142141600230780635134749400519nat);
    lemma_fundamental_div_mod_converse(17231751839875971872007946980099583469184604996142141600230780635134749400519int * 17231751839875971872007946980099583469184604996142141600230780635134749400519int, m, 13565879783483851447267976572494570725806388492841703280531590564179878126476int, 20903928896327311801914425530954484308240049007993357213476326161107046725853int);
    assert(mod_pow(3, 5697122013683213735315582571398554693844722128668680894502135316004nat, 21888242871839275222246405745257275088696311157297823662689037894645226208583nat) == 20903928896327311801914425530954484308240049007993357213476326161107046725853nat);
    lemma_fundamental_div_mod_converse(20903928896327311801914425530954484308240049007993357213476326161107046725853int * 20903928896327311801914425530954484308240049007993357213476326161107046725853int, m, 19963879506513759510744370175612169417805348656051593926106359761175568729822int, 12429577337136217131958655243232546390451482480647026015905432762065194115383int);
    lemma_fundamental_div_mod_converse(12429577337136217131958655243232546390451482480647026015905432762065194115383int * 3, m, 1int, 15400489139569376173629559984440364082658136284643254385027260391550356137566int);
    assert(mod_pow(3, 11394244027366427470631165142797109387689444257337361789004270632009nat, 21888242871839275222246405745257275088696311157297823662689037894645226208583nat) == 15400489139569376173629559984440364082658136284643254385027260391550356137566nat);
    lemma_fundamental_div_mod_converse(15400489139569376173629559984440364082658136284643254385027260391550356137566int * 15400489139569376173629559984440364082658136284643254385027260391550356137566int, m, 10835728894580948004919357381662185235353029442483574758277198598663085049557int, 16365849961842047448164672685740101587197785733746077543945842682832142656625int);
    assert(mod_pow(3, 22788488054732854941262330285594218775378888514674723578008541264018nat, 21888242871839275222246405745257275088696311157297823662689037894645226208583nat) == 16365849961842047448164672685740101587197785733746077543945842682832142656625nat);
    lemma_fundamental_div_mod_converse(16365849961842047448164672685740101587197785733746077543945842682832142656625int * 16365849961842047448164672685740101587197785733746077543945842682832142656625int, m, 12236754066637354858610079454933097112971796280946665205594101380125546455544int, 6916466842432813022754126828898884021521516301288050757515145087223375656473int);
    lemma_fundamental_div_mod_converse(6916466842432813022754126828898884021521516301288050757515145087223375656473int * 3, m, 0int, 20749400527298439068262380486696652064564548903864152272545435261670126969419int);
    assert(mod_pow(3, 45576976109465709882524660571188437550757777029349447156017082528037nat, 21888242871839275222246405745257275088696311157297823662689037894645226208583nat) == 20749400527298439068262380486696652064564548903864152272545435261670126969419nat);
    lemma_fundamental_div_mod_converse(20749400527298439068262380486696652064564548903864152272545435261670126969419int * 20749400527298439068262380486696652064564548903864152272545435261670126969419int, m, 19669811997388282973516245842750076892556658920277079715940902068340082435395int, 18304561432757271044105800670236712060219280803651956712516713691104469202276int);
    lemma_fundamental_div_mod_converse(18304561432757271044105800670236712060219280803651956712516713691104469202276int * 3, m, 2int, 11137198554593262687824590520195586003265220096360222812172065284022955189662int);
    assert(mod_pow(3, 91153952218931419765049321142376875101515554058698894312034165056075nat, 21888242871839275222246405745257275088696311157297823662689037894645226208583nat) == 11137198554593262687824590520195586003265220096360222812172065284022955189662nat);
    lemma_fundamental_div_mod_converse(11137198554593262687824590520195586003265220096360222812172065284022955189662int * 11137198554593262687824590520195586003265220096360222812172065284022955189662int, m, 5666840978085847574246714300299297534354376986918721402407591911136121531140int, 18550066323875391444749381940183864104838457030640838883238958031443421899624int);
    assert(mod_pow(3, 182307904437862839530098642284753750203031108117397788624068330112150nat, 21888242871839275222246405745257275088696311157297823662689037894645226208583nat) == 18550066323875391444749381940183864104838457030640838883238958031443421899624nat);
    lemma_fundamental_div_mod_converse(18550066323875391444749381940183864104838457030640838883238958031443421899624int * 18550066323875391444749381940183864104838457030640838883238958031443421899624int, m, 15720995176953673949667565019970233972712281797337009053919543156302590854782int, 17165627429534539560827939280848617578610999073493841978269574715277736347470int);
    lemma_fundamental_div_mod_converse(17165627429534539560827939280848617578610999073493841978269574715277736347470int * 3, m, 2int, 7720396544925068237991006352031302558440374905885878609430648356542756625244int);
    assert(mod_pow(3, 364615808875725679060197284569507500406062216234795577248136660224301nat, 21888242871839275222246405745257275088696311157297823662689037894645226208583nat) == 7720396544925068237991006352031302558440374905885878609430648356542756625244nat);
    lemma_fundamental_div_mod_converse(7720396544925068237991006352031302558440374905885878609430648356542756625244int * 7720396544925068237991006352031302558440374905885878609430648356542756625244int, m, 2723129634474964427708806179438999633272157792900029957209189125259886703123int, 5864284796525459636172649691473591933317546132177184101752037020066862554827int);
    lemma_fundamental_div_mod_converse(5864284796525459636172649691473591933317546132177184101752037020066862554827int * 3, m, 0int, 17592854389576378908517949074420775799952638396531552305256111060200587664481int);
    assert(mod_pow(3, 729231617751451358120394569139015000812124432469591154496273320448603nat, 21888242871839275222246405745257275088696311157297823662689037894645226208583nat) == 17592854389576378908517949074420775799952638396531552305256111060200587664481nat);
    lemma_fundamental_div_mod_converse(17592854389576378908517949074420775799952638396531552305256111060200587664481int * 17592854389576378908517949074420775799952638396531552305256111060200587664481int, m, 14140400734087284688438978513160262117836626830581653604746634733357337666139int, 11289696508002099546441478332564234968012667555805538922716118750177398728324int);
    lemma_fundamental_div_mod_converse(11289696508002099546441478332564234968012667555805538922716118750177398728324int * 3, m, 1int, 11980846652167023417078029252435429815341691510118793105459318355886969976389int);
    assert(mod_pow(3, 1458463235502902716240789138278030001624248864939182308992546640897207nat, 21888242871839275222246405745257275088696311157297823662689037894645226208583nat) == 11980846652167023417078029252435429815341691510118793105459318355886969976389nat);
    lemma_fundamental_div_mod_converse(11980846652167023417078029252435429815341691510118793105459318355886969976389int * 11980846652167023417078029252435429815341691510118793105459318355886969976389int, m, 6557889883770282224815183066601061721799585657344136998592001925503011128793int, 10622124633426463094831246785461213305728165145686011947249411482340722449002int);
    lemma_fundamental_div_mod_converse(10622124633426463094831246785461213305728165145686011947249411482340722449002int * 3, m, 1int, 9978131028440114062247334611126364828488184279760212179059196552376941138423int);
    assert(mod_pow(3, 2916926471005805432481578276556060003248497729878364617985093281794415nat, 21888242871839275222246405745257275088696311157297823662689037894645226208583nat) == 9978131028440114062247334611126364828488184279760212179059196552376941138423nat);
    lemma_fundamental_div_mod_converse(9978131028440114062247334611126364828488184279760212179059196552376941138423int * 9978131028440114062247334611126364828488184279760212179059196552376941138423int, m, 4548702214411834743525356399178330296761546242711143825899988482715276370220int, 18258541666677617384560797574392781902864235393858659129179538695566397328669int);
    lemma_fundamental_div_mod_converse(18258541666677617384560797574392781902864235393858659129179538695566397328669int * 3, m, 2int, 10999139256354301709189581232663795531200083866980330062160540297408739568841int);
    assert(mod_pow(3, 5833852942011610864963156553112120006496995459756729235970186563588831nat, 21888242871839275222246405745257275088696311157297823662689037894645226208583nat) == 10999139256354301709189581232663795531200083866980330062160540297408739568841nat);
    lemma_fundamental_div_mod_converse(10999139256354301709189581232663795531200083866980330062160540297408739568841int * 10999139256354301709189581232663795531200083866980330062160540297408739568841int, m, 5527216830014468322131087171974678150381661281499937812189762660568433712557int, 16287373267229080101672568989189567950890653197216134687770331768414629806550int);
    lemma_fundamental_div_mod_converse(16287373267229080101672568989189567950890653197216134687770331768414629806550int * 3, m, 2int, 5085634058008689860524895477054153675279337277052756737932919515953437002484int);
    assert(mod_pow(3, 11667705884023221729926313106224240012993990919513458471940373127177663nat, 21888242871839275222246405745257275088696311157297823662689037894645226208583nat) == 5085634058008689860524895477054153675279337277052756737932919515953437002484nat);
    lemma_fundamental_div_mod_converse(5085634058008689860524895477054153675279337277052756737932919515953437002484int * 5085634058008689860524895477054153675279337277052756737932919515953437002484int, m, 1181624030919965868562542035910072713976046098601394871941064394462232003479int, 7152649254604559324540035736177784750907309885882755827002738207195786509999int);
    assert(mod_pow(3, 23335411768046443459852626212448480025987981839026916943880746254355326nat, 21888242871839275222246405745257275088696311157297823662689037894645226208583nat) == 7152649254604559324540035736177784750907309885882755827002738207195786509999nat);
    lemma_fundamental_div_mod_converse(7152649254604559324540035736177784750907309885882755827002738207195786509999int * 7152649254604559324540035736177784750907309885882755827002738207195786509999int, m, 2337345745793807340170652857785344853238909536844451659385813194174635570084int, 9788300093125021528689846730720635451699514125359422636936367116558428149029int);
    assert(mod_pow(3, 46670823536092886919705252424896960051975963678053833887761492508710652nat, 21888242871839275222246405745257275088696311157297823662689037894645226208583nat) == 9788300093125021528689846730720635451699514125359422636936367116558428149029nat);
    lemma_fundamental_div_mod_converse(9788300093125021528689846730720635451699514125359422636936367116558428149029int * 9788300093125021528689846730720635451699514125359422636936367116558428149029int, m, 4377273190637814546978100498952991276619383047819358783795992906685584958806int, 4064350878373899376727327984931224174474907316990440524383167962027415010943int);
    assert(mod_pow(3, 93341647072185773839410504849793920103951927356107667775522985017421304nat, 21888242871839275222246405745257275088696311157297823662689037894645226208583nat) == 4064350878373899376727327984931224174474907316990440524383167962027415010943nat);
    lemma_fundamental_div_mod_converse(4064350878373899376727327984931224174474907316990440524383167962027415010943int * 4064350878373899376727327984931224174474907316990440524383167962027415010943int, m, 754695027794645241860626511762354216042760166715694393158482151067874375338int, 11769343412749621452222870589173515277009619434661789031161713092727590623195int);
    assert(mod_pow(3, 186683294144371547678821009699587840207903854712215335551045970034842608nat, 21888242871839275222246405745257275088696311157297823662689037894645226208583nat) == 11769343412749621452222870589173515277009619434661789031161713092727590623195nat);
    lemma_fundamental_div_mod_converse(11769343412749621452222870589173515277009619434661789031161713092727590623195int * 11769343412749621452222870589173515277009619434661789031161713092727590623195int, m, 6328394891188140696331513046118285428647210556530717956006186843792474531889int, 6231375203318260337505673311499399203392269349349959262782839996961273004738int);
    lemma_fundamental_div_mod_converse(6231375203318260337505673311499399203392269349349959262782839996961273004738int * 3, m, 0int, 18694125609954781012517019934498197610176808048049877788348519990883819014214int);
    assert(mod_pow(3, 373366588288743095357642019399175680415807709424430671102091940069685217nat, 21888242871839275222246405745257275088696311157297823662689037894645226208583nat) == 18694125609954781012517019934498197610176808048049877788348519990883819014214nat);
    lemma_fundamental_div_mod_converse(18694125609954781012517019934498197610176808048049877788348519990883819014214int * 18694125609954781012517019934498197610176808048049877788348519990883819014214int, m, 15966120915552556761296044344409755940127729308850106012655965217685695984824int, 10626539828907937328981504794899938354199912710323173875433526910630907493404int);
    lemma_fundamental_div_mod_converse(10626539828907937328981504794899938354199912710323173875433526910630907493404int * 3, m, 1int, 9991376614884536764698108639442539973903426973671697963611542837247496271629int);
    assert(mod_pow(3, 746733176577486190715284038798351360831615418848861342204183880139370435nat, 21888242871839275222246405745257275088696311157297823662689037894645226208583nat) == 9991376614884536764698108639442539973903426973671697963611542837247496271629nat);
    lemma_fundamental_div_mod_converse(9991376614884536764698108639442539973903426973671697963611542837247496271629int * 9991376614884536764698108639442539973903426973671697963611542837247496271629int, m, 4560786685572492596438072033727975627874420217040835013119236058090467854356int, 14948879899001497482844889044390786093294243700839746933845064673494829176093int);
    lemma_fundamental_div_mod_converse(14948879899001497482844889044390786093294243700839746933845064673494829176093int * 3, m, 2int, 1070153953325942004041855642657808102490108787923593476157118231194035111113int);
    assert(mod_pow(3, 1493466353154972381430568077596702721663230837697722684408367760278740871nat, 21888242871839275222246405745257275088696311157297823662689037894645226208583nat) == 1070153953325942004041855642657808102490108787923593476157118231194035111113nat);
    lemma_fundamental_div_mod_converse(1070153953325942004041855642657808102490108787923593476157118231194035111113int * 1070153953325942004041855642657808102490108787923593476157118231194035111113int, m, 52321672896482644918199590332661758979291737093243304514622094806587497369int, 16626081388555822447257092503916846029791256860375992324613700044783898380642int);
    assert(mod_pow(3, 2986932706309944762861136155193405443326461675395445368816735520557481742nat, 21888242871839275222246405745257275088696311157297823662689037894645226208583nat) == 16626081388555822447257092503916846029791256860375992324613700044783898380642nat);
    lemma_fundamental_div_mod_converse(16626081388555822447257092503916846029791256860375992324613700044783898380642int * 16626081388555822447257092503916846029791256860375992324613700044783898380642int, m, 12628998314639684978657588473336648479125831510613605000098413191754044483126int, 3047162395442466351333759887915915712381148486025272376073509721833020461706int);
    assert(mod_pow(3, 5973865412619889525722272310386810886652923350790890737633471041114963484nat, 21888242871839275222246405745257275088696311157297823662689037894645226208583nat) == 3047162395442466351333759887915915712381148486025272376073509721833020461706nat);
    lemma_fundamental_div_mod_converse(3047162395442466351333759887915915712381148486025272376073509721833020461706int * 3047162395442466351333759887915915712381148486025272376073509721833020461706int, m, 424209413179744739197731980995935005131031439721415370021373785187417765996int, 20121472881015898354736761745540890244841432437295734838907874019182431686768int);
    lemma_fundamental_div_mod_converse(20121472881015898354736761745540890244841432437295734838907874019182431686768int * 3, m, 2int, 16587932899369144619717473746108120557131674997291557191345546268256842643138int);
    assert(mod_pow(3, 11947730825239779051444544620773621773305846701581781475266942082229926969nat, 21888242871839275222246405745257275088696311157297823662689037894645226208583nat) == 16587932899369144619717473746108120557131674997291557191345546268256842643138nat);
    lemma_fundamental_div_mod_converse(16587932899369144619717473746108120557131674997291557191345546268256842643138int * 16587932899369144619717473746108120557131674997291557191345546268256842643138int, m, 12571110412338526133477560110953263761581262478930290756755942061366170390934int, 12009412941383755184847240873148931331908223935744590147119865705414282300522int);
    lemma_fundamental_div_mod_converse(12009412941383755184847240873148931331908223935744590147119865705414282300522int * 3, m, 1int, 14139995952311990332295316874189518907028360649935946778670559221597620692983int);
    assert(mod_pow(3, 23895461650479558102889089241547243546611693403163562950533884164459853939nat, 21888242871839275222246405745257275088696311157297823662689037894645226208583nat) == 14139995952311990332295316874189518907028360649935946778670559221597620692983nat);
    lemma_fundamental_div_mod_converse(14139995952311990332295316874189518907028360649935946778670559221597620692983int * 14139995952311990332295316874189518907028360649935946778670559221597620692983int, m, 9134560809750303132124299755853827707501652325589900815551921270840183467468int, 13822402595008906745956895722978412463040271974452072606180899136985182560445int);
    lemma_fundamental_div_mod_converse(13822402595008906745956895722978412463040271974452072606180899136985182560445int * 3, m, 1int, 19578964913187445015624281423677962300424504766058394155853659516310321472752int);
    assert(mod_pow(3, 47790923300959116205778178483094487093223386806327125901067768328919707879nat, 21888242871839275222246405745257275088696311157297823662689037894645226208583nat) == 19578964913187445015624281423677962300424504766058394155853659516310321472752nat);
    lemma_fundamental_div_mod_converse(19578964913187445015624281423677962300424504766058394155853659516310321472752int * 19578964913187445015624281423677962300424504766058394155853659516310321472752int, m, 17513322988800207666216636435377145477484641998534495283556279160913904657310int, 10247490365858481317912223827250247247828105120952384175173060052493082761774int);
    assert(mod_pow(3, 95581846601918232411556356966188974186446773612654251802135536657839415758nat, 21888242871839275222246405745257275088696311157297823662689037894645226208583nat) == 10247490365858481317912223827250247247828105120952384175173060052493082761774nat);
}

#[verifier::rlimit(100)]
pub proof fn lemma_pow_base_modulus_by_311()
    ensures
        mod_pow(3, 70380202160254904251596159952595739835036370280700397629225202233585936362nat, 21888242871839275222246405745257275088696311157297823662689037894645226208583nat) == 4896153894909549175696450898459562220401524575804930873880135265551520772785nat,
{
    let m = 21888242871839275222246405745257275088696311157297823662689037894645226208583int;
    lemma_fundamental_div_mod_converse(1, m, 0, 1);
    assert(mod_pow(3, 0, 21888242871839275222246405745257275088696311157297823662689037894645226208583nat) == 1);
    lemma_fundamental_div_mod_converse(1int * 1int, m, 0int, 1int);
    lemma_fundamental_div_mod_converse(1int * 3, m, 0int, 3int);
    assert(mod_pow(3, 1, 21888242871839275222246405745257275088696311157297823662689037894645226208583nat) == 3);
    lemma_fundamental_div_mod_converse(3int * 3int, m, 0int, 9int);
    assert(mod_pow(3, 2, 21888242871839275222246405745257275088696311157297823662689037894645226208583nat) == 9);
    lemma_fundamental_div_mod_converse(9int * 9int, m, 0int, 81int);
    assert(mod_pow(3, 4, 21888242871839275222246405745257275088696311157297823662689037894645226208583nat) == 81);
    lemma_fundamental_div_mod_converse(81int * 81int, m, 0int, 6561int);
    lemma_fundamental_div_mod_converse(6561int * 3, m, 0int, 19683int);
    assert(mod_pow(3, 9, 21888242871839275222246405745257275088696311157297823662689037894645226208583nat) == 19683);
    lemma_fundamental_div_mod_converse(19683int * 19683int, m, 0int, 387420489int);
    lemma_fundamental_div_mod_converse(387420489int * 3, m, 0int, 1162261467int);
    assert(mod_pow(3, 19, 21888242871839275222246405745257275088696311157297823662689037894645226208583nat) == 1162261467);
    lemma_fundamental_div_mod_converse(1162261467int * 1162261467int, m, 0int, 1350851717672992089int);
    lemma_fundamental_div_mod_converse(1350851717672992089int * 3, m, 0int, 4052555153018976267int);
    assert(mod_pow(3, 39, 21888242871839275222246405745257275088696311157297823662689037894645226208583nat) == 4052555153018976267);
    lemma_fundamental_div_mod_converse(4052555153018976267int * 4052555153018976267int, m, 0int, 16423203268260658146231467800709255289int);
    lemma_fundamental_div_mod_converse(16423203268260658146231467800709255289int * 3, m, 0int, 49269609804781974438694403402127765867int);
    assert(mod_pow(3, 79, 21888242871839275222246405745257275088696311157297823662689037894645226208583nat) == 49269609804781974438694403402127765867nat);
    lemma_fundamental_div_mod_converse(49269609804781974438694403402127765867int * 49269609804781974438694403402127765867int, m, 0int, 2427494450315468069358961833665581682507450011656972431201424883184770261689int);
    lemma_fundamental_div_mod_converse(2427494450315468069358961833665581682507450011656972431201424883184770261689int * 3, m, 0int, 7282483350946404208076885500996745047522350034970917293604274649554310785067int);
    assert(mod_pow(3, 159, 21888242871839275222246405745257275088696311157297823662689037894645226208583nat) == 7282483350946404208076885500996745047522350034970917293604274649554310785067nat);
    lemma_fundamental_div_mod_converse(7282483350946404208076885500996745047522350034970917293604274649554310785067int * 7282483350946404208076885500996745047522350034970917293604274649554310785067int, m, 2422970362095358955829970363460874357478089770955313874164100477945430858779int, 1352495734062186531707140897957305123973903981978574428730045403249999494332int);
    assert(mod_pow(3, 318, 21888242871839275222246405745257275088696311157297823662689037894645226208583nat) == 1352495734062186531707140897957305123973903981978574428730045403249999494332nat);
    lemma_fundamental_div_mod_converse(1352495734062186531707140897957305123973903981978574428730045403249999494332int * 1352495734062186531707140897957305123973903981978574428730045403249999494332int, m, 83572021809473865944406585231271006626827893216496307300701720604824063468int, 8428668707027244384817652479441606247129049160570263603553802275034301780380int);
    lemma_fundamental_div_mod_converse(8428668707027244384817652479441606247129049160570263603553802275034301780380int * 3, m, 1int, 3397763249242457932206551693067543652690836324412967147972368930457679132557int);
    assert(mod_pow(3, 637, 21888242871839275222246405745257275088696311157297823662689037894645226208583nat) == 3397763249242457932206551693067543652690836324412967147972368930457679132557nat);
    lemma_fundamental_div_mod_converse(3397763249242457932206551693067543652690836324412967147972368930457679132557int * 3397763249242457932206551693067543652690836324412967147972368930457679132557int, m, 527442753879336542451980864883187658116777247115309500984166940304784736171int, 13226558345387922688056719207845546129605163960613633840827286750543706602556int);
    assert(mod_pow(3, 1274, 21888242871839275222246405745257275088696311157297823662689037894645226208583nat) == 13226558345387922688056719207845546129605163960613633840827286750543706602556nat);
    lemma_fundamental_div_mod_converse(13226558345387922688056719207845546129605163960613633840827286750543706602556int * 13226558345387922688056719207845546129605163960613633840827286750543706602556int, m, 7992502947279773605890653570554612241708881895483912265382331018944790964737int, 4734722647108382962975218626367982256265729044218186960773372210258785995465int);
    lemma_fundamental_div_mod_converse(4734722647108382962975218626367982256265729044218186960773372210258785995465int * 3, m, 0int, 14204167941325148888925655879103946768797187132654560882320116630776357986395int);
    assert(mod_pow(3, 2549, 21888242871839275222246405745257275088696311157297823662689037894645226208583nat) == 14204167941325148888925655879103946768797187132654560882320116630776357986395nat);
    lemma_fundamental_div_mod_converse(14204167941325148888925655879103946768797187132654560882320116630776357986395int * 14204167941325148888925655879103946768797187132654560882320116630776357986395int, m, 9217660279388854577818382100311950680949760009028277944349846553693605661361int, 8522665061298089682914551771127004907530786850480057009223491474636755434562int);
    assert(mod_pow(3, 5098, 21888242871839275222246405745257275088696311157297823662689037894645226208583nat) == 8522665061298089682914551771127004907530786850480057009223491474636755434562nat);
    lemma_fundamental_div_mod_converse(8522665061298089682914551771127004907530786850480057009223491474636755434562int * 8522665061298089682914551771127004907530786850480057009223491474636755434562int, m, 3318485644205005221214590241593621221871503832970996215845514911415838145543int, 7650099668098857243298177301660966253436743978056581362954774632345834336275int);
    lemma_fundamental_div_mod_converse(7650099668098857243298177301660966253436743978056581362954774632345834336275int * 3, m, 1int, 1062056132457296507648126159725623671613920776871920426175286002392276800242int);
    assert(mod_pow(3, 10197, 21888242871839275222246405745257275088696311157297823662689037894645226208583nat) == 1062056132457296507648126159725623671613920776871920426175286002392276800242nat);
    lemma_fundamental_div_mod_converse(1062056132457296507648126159725623671613920776871920426175286002392276800242int * 1062056132457296507648126159725623671613920776871920426175286002392276800242int, m, 51532835919933644091059519301590617483223620982075709058121351262134225628int, 8583607052990068415419211862986895006291606937314906353801137369306859093440int);
    assert(mod_pow(3, 20394, 21888242871839275222246405745257275088696311157297823662689037894645226208583nat) == 8583607052990068415419211862986895006291606937314906353801137369306859093440nat);
    lemma_fundamental_div_mod_converse(8583607052990068415419211862986895006291606937314906353801137369306859093440int * 8583607052990068415419211862986895006291606937314906353801137369306859093440int, m, 3366113509958035201386412902146669554068038251137974510126796774545866874082int, 13457865566396823652909211467512225733093547900187116242048433841835922387794int);
    lemma_fundamental_div_mod_converse(13457865566396823652909211467512225733093547900187116242048433841835922387794int * 3, m, 1int, 18485353827351195736481228657279402110584332543263525063456263630862540954799int);
    assert(mod_pow(3, 40789, 21888242871839275222246405745257275088696311157297823662689037894645226208583nat) == 18485353827351195736481228657279402110584332543263525063456263630862540954799nat);
    lemma_fundamental_div_mod_converse(18485353827351195736481228657279402110584332543263525063456263630862540954799int * 18485353827351195736481228657279402110584332543263525063456263630862540954799int, m, 15611500115525429359753775554641851617217971676810768650269642425713393329107int, 10948580231435171721357188124524329161980710442778689656780032044456614005020int);
    lemma_fundamental_div_mod_converse(10948580231435171721357188124524329161980710442778689656780032044456614005020int * 3, m, 1int, 10957497822466239941825158628315712397245820171038245307651058238724615806477int);
    assert(mod_pow(3, 81579, 21888242871839275222246405745257275088696311157297823662689037894645226208583nat) == 10957497822466239941825158628315712397245820171038245307651058238724615806477nat);
    lemma_fundamental_div_mod_converse(10957497822466239941825158628315712397245820171038245307651058238724615806477int * 10957497822466239941825158628315712397245820171038245307651058238724615806477int, m, 5485445279110389658862474295001415111133621063045481346224864461855268246847int, 15283311693382385430265267326154984352116490502318835574336904832793961063728int);
    lemma_fundamental_div_mod_converse(15283311693382385430265267326154984352116490502318835574336904832793961063728int * 3, m, 2int, 2073449336468605846302990487950402878956849192360859397632638709091430774018int);
    assert(mod_pow(3, 163159, 21888242871839275222246405745257275088696311157297823662689037894645226208583nat) == 2073449336468605846302990487950402878956849192360859397632638709091430774018nat);
    lemma_fundamental_div_mod_converse(2073449336468605846302990487950402878956849192360859397632638709091430774018int * 2073449336468605846302990487950402878956849192360859397632638709091430774018int, m, 196415590601532809512753981131255915451882279424993263899378367020135381314int, 15329615137840113087071799979952705730981418898104208209138799540925379246262int);
    assert(mod_pow(3, 326318, 21888242871839275222246405745257275088696311157297823662689037894645226208583nat) == 15329615137840113087071799979952705730981418898104208209138799540925379246262nat);
    lemma_fundamental_div_mod_converse(15329615137840113087071799979952705730981418898104208209138799540925379246262int * 15329615137840113087071799979952705730981418898104208209138799540925379246262int, m, 10736224997605295520182759240740434507520133332808227635997247927121604561263int, 9909821703385676762895329001517971358605534566070773647371080799302601052315int);
    assert(mod_pow(3, 652636, 21888242871839275222246405745257275088696311157297823662689037894645226208583nat) == 9909821703385676762895329001517971358605534566070773647371080799302601052315nat);
    lemma_fundamental_div_mod_converse(9909821703385676762895329001517971358605534566070773647371080799302601052315int * 9909821703385676762895329001517971358605534566070773647371080799302601052315int, m, 4486635440218031477063419442761793953463691754310472495068886316944964530062int, 10656977372997308917889686145357662230943447572847484810882895598824780937079int);
    lemma_fundamental_div_mod_converse(10656977372997308917889686145357662230943447572847484810882895598824780937079int * 3, m, 1int, 10082689247152651531422652690815711604134031561244630769959648901829116602654int);
    assert(mod_pow(3, 1305273, 21888242871839275222246405745257275088696311157297823662689037894645226208583nat) == 10082689247152651531422652690815711604134031561244630769959648901829116602654nat);
    lemma_fundamental_div_mod_converse(10082689247152651531422652690815711604134031561244630769959648901829116602654int * 10082689247152651531422652690815711604134031561244630769959648901829116602654int, m, 4644530995470680837658540275159466865651377931864955646265207005063303698788int, 13937534281501470822812456358104790553009681410449137679022105359249427546312int);
    assert(mod_pow(3, 2610546, 21888242871839275222246405745257275088696311157297823662689037894645226208583nat) == 13937534281501470822812456358104790553009681410449137679022105359249427546312nat);
    lemma_fundamental_div_mod_converse(13937534281501470822812456358104790553009681410449137679022105359249427546312int * 13937534281501470822812456358104790553009681410449137679022105359249427546312int, m, 8874849524716801979500986013902692516202722775366463796001886224902010420344int, 13944822764917091381080107984903125357296466712687632731702333126307654188792int);
    lemma_fundamental_div_mod_converse(13944822764917091381080107984903125357296466712687632731702333126307654188792int * 3, m, 1int, 19946225422911998920993918209452100983193088980765074532417961484277736357793int);
    assert(mod_pow(3, 5221093, 21888242871839275222246405745257275088696311157297823662689037894645226208583nat) == 19946225422911998920993918209452100983193088980765074532417961484277736357793nat);
    lemma_fundamental_div_mod_converse(19946225422911998920993918209452100983193088980765074532417961484277736357793int * 19946225422911998920993918209452100983193088980765074532417961484277736357793int, m, 18176511972712286617280568302487873711505529128133299621043400275298429147966int, 19147825007849022637096522554723770665274557172568857117001082462364025638671int);
    lemma_fundamental_div_mod_converse(19147825007849022637096522554723770665274557172568857117001082462364025638671int * 3, m, 2int, 13666989279868517466796756173656761818431049203110924025625171597801624498847int);
    assert(mod_pow(3, 10442187, 21888242871839275222246405745257275088696311157297823662689037894645226208583nat) == 13666989279868517466796756173656761818431049203110924025625171597801624498847nat);
    lemma_fundamental_div_mod_converse(13666989279868517466796756173656761818431049203110924025625171597801624498847int * 13666989279868517466796756173656761818431049203110924025625171597801624498847int, m, 8533649643313979150494781249974506770241415079509468811095804890464216813454int, 10762645200460613502313183279763315881696622466429729168937883218297699653727int);
    assert(mod_pow(3, 20884374, 21888242871839275222246405745257275088696311157297823662689037894645226208583nat) == 10762645200460613502313183279763315881696622466429729168937883218297699653727nat);
    lemma_fundamental_div_mod_converse(10762645200460613502313183279763315881696622466429729168937883218297699653727int * 10762645200460613502313183279763315881696622466429729168937883218297699653727int, m, 5292089108716302864565324763174983062765868969417521363402431177091423652176int, 1069846998002462639180346944133559957757121251392372322121304797844287163921int);
    assert(mod_pow(3, 41768748, 21888242871839275222246405745257275088696311157297823662689037894645226208583nat) == 1069846998002462639180346944133559957757121251392372322121304797844287163921nat);
    lemma_fundamental_div_mod_converse(1069846998002462639180346944133559957757121251392372322121304797844287163921int * 1069846998002462639180346944133559957757121251392372322121304797844287163921int, m, 52291662050563793836815376996891695582975059692402711529700268383118744361int, 16954154593676439855272243040734674295011443955727205779441002396637883043778int);
    lemma_fundamental_div_mod_converse(16954154593676439855272243040734674295011443955727205779441002396637883043778int * 3, m, 2int, 7085978037350769121323917631689472707641709552585970012944931400623196714168int);
    assert(mod_pow(3, 83537497, 21888242871839275222246405745257275088696311157297823662689037894645226208583nat) == 7085978037350769121323917631689472707641709552585970012944931400623196714168nat);
    lemma_fundamental_div_mod_converse(7085978037350769121323917631689472707641709552585970012944931400623196714168int * 7085978037350769121323917631689472707641709552585970012944931400623196714168int, m, 2293975128100276161412897089819547269239730137952017988833826206289907080888int, 16032746736622524076662147611619116097358113175619334576371952337062551070520int);
    assert(mod_pow(3, 167074994, 21888242871839275222246405745257275088696311157297823662689037894645226208583nat) == 16032746736622524076662147611619116097358113175619334576371952337062551070520nat);
    lemma_fundamental_div_mod_converse(16032746736622524076662147611619116097358113175619334576371952337062551070520int * 16032746736622524076662147611619116097358113175619334576371952337062551070520int, m, 11743700461739270628624916352637399937381740233095659047907486179689933578578int, 16459395912333159221470897088512396965603282144465215684368710734213764535426int);
    assert(mod_pow(3, 334149988, 21888242871839275222246405745257275088696311157297823662689037894645226208583nat) == 16459395912333159221470897088512396965603282144465215684368710734213764535426nat);
    lemma_fundamental_div_mod_converse(16459395912333159221470897088512396965603282144465215684368710734213764535426int * 16459395912333159221470897088512396965603282144465215684368710734213764535426int, m, 12377042569619692961537706191043654581756151789978173284164367873912950871157int, 10795538244860679017138181579432027341724282867889275142687695437715568460945int);
    lemma_fundamental_div_mod_converse(10795538244860679017138181579432027341724282867889275142687695437715568460945int * 3, m, 1int, 10498371862742761829168138993038806936476537446370001765374048418501479174252int);
    assert(mod_pow(3, 668299977, 21888242871839275222246405745257275088696311157297823662689037894645226208583nat) == 10498371862742761829168138993038806936476537446370001765374048418501479174252nat);
    lemma_fundamental_div_mod_converse(10498371862742761829168138993038806936476537446370001765374048418501479174252int * 10498371862742761829168138993038806936476537446370001765374048418501479174252int, m, 5035388743343538250384661490372573276264323077208681271623989480140460536291int, 14294514187608776333308516762095866862478602506389632171527491599890972573851int);
    lemma_fundamental_div_mod_converse(14294514187608776333308516762095866862478602506389632171527491599890972573851int * 3, m, 1int, 20995299690987053777679144541030325498739496361871072851893436905027691512970int);
    assert(mod_pow(3, 1336599955, 21888242871839275222246405745257275088696311157297823662689037894645226208583nat) == 20995299690987053777679144541030325498739496361871072851893436905027691512970nat);
    lemma_fundamental_div_mod_converse(20995299690987053777679144541030325498739496361871072851893436905027691512970int * 20995299690987053777679144541030325498739496361871072851893436905027691512970int, m, 20138784629509198618957109026605690242941716007549206062021539309253320852195int, 15684472553187853468273568268792970815053264935266711642390116096773294831215int);
    assert(mod_pow(3, 2673199910, 21888242871839275222246405745257275088696311157297823662689037894645226208583nat) == 15684472553187853468273568268792970815053264935266711642390116096773294831215nat);
    lemma_fundamental_div_mod_converse(15684472553187853468273568268792970815053264935266711642390116096773294831215int * 15684472553187853468273568268792970815053264935266711642390116096773294831215int, m, 11239032786327604762061616254210424158187788193423640186891131020051114262999int, 5911721259441037857055423203040499329197199104518915554659478378476245255808int);
    assert(mod_pow(3, 5346399820, 21888242871839275222246405745257275088696311157297823662689037894645226208583nat) == 5911721259441037857055423203040499329197199104518915554659478378476245255808nat);
    lemma_fundamental_div_mod_converse(5911721259441037857055423203040499329197199104518915554659478378476245255808int * 5911721259441037857055423203040499329197199104518915554659478378476245255808int, m, 1596676738921364265203621287826778154166063483356321165591750545234441573289int, 2003803761322501384782389389677585785101277238314614985078393959132362393377int);
    lemma_fundamental_div_mod_converse(2003803761322501384782389389677585785101277238314614985078393959132362393377int * 3, m, 0int, 6011411283967504154347168169032757355303831714943844955235181877397087180131int);
    assert(mod_pow(3, 10692799641, 21888242871839275222246405745257275088696311157297823662689037894645226208583nat) == 6011411283967504154347168169032757355303831714943844955235181877397087180131nat);
    lemma_fundamental_div_mod_converse(6011411283967504154347168169032757355303831714943844955235181877397087180131int * 6011411283967504154347168169032757355303831714943844955235181877397087180131int, m, 1650980658274065882217086115860434154662639289564787579875785862161153158460int, 1533218075880085766430343137148059996768353468719400712808222178068030114981int);
    assert(mod_pow(3, 21385599282, 21888242871839275222246405745257275088696311157297823662689037894645226208583nat) == 1533218075880085766430343137148059996768353468719400712808222178068030114981nat);
    lemma_fundamental_div_mod_converse(1533218075880085766430343137148059996768353468719400712808222178068030114981int * 1533218075880085766430343137148059996768353468719400712808222178068030114981int, m, 107398190068049880202683324819514828605652681365120137712560257777051880933int, 9818070954003584996538200517972806547960814898748036751471193840639741982422int);
    assert(mod_pow(3, 42771198564, 21888242871839275222246405745257275088696311157297823662689037894645226208583nat) == 9818070954003584996538200517972806547960814898748036751471193840639741982422nat);
    lemma_fundamental_div_mod_converse(9818070954003584996538200517972806547960814898748036751471193840639741982422int * 9818070954003584996538200517972806547960814898748036751471193840639741982422int, m, 4403940408659619699425715391036873332145417943626598654399144754822742921960int, 383299700353990327856474921882326225498807650248296983744893036480705803404int);
    lemma_fundamental_div_mod_converse(383299700353990327856474921882326225498807650248296983744893036480705803404int * 3, m, 0int, 1149899101061970983569424765646978676496422950744890951234679109442117410212int);
    assert(mod_pow(3, 85542397129, 21888242871839275222246405745257275088696311157297823662689037894645226208583nat) == 1149899101061970983569424765646978676496422950744890951234679109442117410212nat);
    lemma_fundamental_div_mod_converse(1149899101061970983569424765646978676496422950744890951234679109442117410212int * 1149899101061970983569424765646978676496422950744890951234679109442117410212int, m, 60409963027425892657769522832709244374572245258372459307114654203343576177int, 11051487640051531439927049147131085280936224506477659033015995412171730157753int);
    assert(mod_pow(3, 171084794258, 21888242871839275222246405745257275088696311157297823662689037894645226208583nat) == 11051487640051531439927049147131085280936224506477659033015995412171730157753nat);
    lemma_fundamental_div_mod_converse(11051487640051531439927049147131085280936224506477659033015995412171730157753int * 11051487640051531439927049147131085280936224506477659033015995412171730157753int, m, 5579953574772660469455418487327088181302460098533824867454008292889920309551int, 15951452206743286629890698171069224297175935039283856349207102451268812932776int);
    lemma_fundamental_div_mod_converse(15951452206743286629890698171069224297175935039283856349207102451268812932776int * 3, m, 2int, 4077870876551309445179283022693122714135182803255921722243231564515986381162int);
    assert(mod_pow(3, 342169588517, 21888242871839275222246405745257275088696311157297823662689037894645226208583nat) == 4077870876551309445179283022693122714135182803255921722243231564515986381162nat);
    lemma_fundamental_div_mod_converse(4077870876551309445179283022693122714135182803255921722243231564515986381162int * 4077870876551309445179283022693122714135182803255921722243231564515986381162int, m, 759724340742752489430822256116861841501566026260179370239542303340117996833int, 6778637717869121853684317212986102404168577443484209595016518362255357052605int);
    assert(mod_pow(3, 684339177034, 21888242871839275222246405745257275088696311157297823662689037894645226208583nat) == 6778637717869121853684317212986102404168577443484209595016518362255357052605nat);
    lemma_fundamental_div_mod_converse(6778637717869121853684317212986102404168577443484209595016518362255357052605int * 6778637717869121853684317212986102404168577443484209595016518362255357052605int, m, 2099297306739757997095326434282840778416875163640807399446336741113515619254int, 7964706430805952898278371825796522703673201150324820271724378629902922428943int);
    lemma_fundamental_div_mod_converse(7964706430805952898278371825796522703673201150324820271724378629902922428943int * 3, m, 1int, 2005876420578583472588709732132293022323292293676637152484097995063541078246int);
    assert(mod_pow(3, 1368678354069, 21888242871839275222246405745257275088696311157297823662689037894645226208583nat) == 2005876420578583472588709732132293022323292293676637152484097995063541078246nat);
    lemma_fundamental_div_mod_converse(2005876420578583472588709732132293022323292293676637152484097995063541078246int * 2005876420578583472588709732132293022323292293676637152484097995063541078246int, m, 183821983253379857556717705683699601313451400281905799813655087735887854751int, 4842589534745730336076512946150518109180336101794258955188825586399160908683int);
    assert(mod_pow(3, 2737356708138, 21888242871839275222246405745257275088696311157297823662689037894645226208583nat) == 4842589534745730336076512946150518109180336101794258955188825586399160908683nat);
    lemma_fundamental_div_mod_converse(4842589534745730336076512946150518109180336101794258955188825586399160908683int * 4842589534745730336076512946150518109180336101794258955188825586399160908683int, m, 1071382181719107647013454003335826829628799073360024296294372863604868587298int, 10892270427022387811089049856562362088239939732121229593990338682394372415755int);
    lemma_fundamental_div_mod_converse(10892270427022387811089049856562362088239939732121229593990338682394372415755int * 3, m, 1int, 10788568409227888211020743824429811176023508039065865119281978152537891038682int);
    assert(mod_pow(3, 5474713416277, 21888242871839275222246405745257275088696311157297823662689037894645226208583nat) == 10788568409227888211020743824429811176023508039065865119281978152537891038682nat);
    lemma_fundamental_div_mod_converse(10788568409227888211020743824429811176023508039065865119281978152537891038682int * 10788568409227888211020743824429811176023508039065865119281978152537891038682int, m, 5317613158904491462488569678763680448046004479152586933865621041472766857795int, 1961911056785367923986796167684366731993947079687504798943074990634650842639int);
    lemma_fundamental_div_mod_converse(1961911056785367923986796167684366731993947079687504798943074990634650842639int * 3, m, 0int, 5885733170356103771960388503053100195981841239062514396829224971903952527917int);
    assert(mod_pow(3, 10949426832555, 21888242871839275222246405745257275088696311157297823662689037894645226208583nat) == 5885733170356103771960388503053100195981841239062514396829224971903952527917nat);
    lemma_fundamental_div_mod_converse(5885733170356103771960388503053100195981841239062514396829224971903952527917int * 5885733170356103771960388503053100195981841239062514396829224971903952527917int, m, 1582669525163174855737903601330105862316155913927416176962758647023235843333int, 11408622827708255529227373337715210081289893219426155367046700541554496431750int);
    lemma_fundamental_div_mod_converse(11408622827708255529227373337715210081289893219426155367046700541554496431750int * 3, m, 1int, 12337625611285491365435714267888355155173368500980642438451063730018263086667int);
    assert(mod_pow(3, 21898853665111, 21888242871839275222246405745257275088696311157297823662689037894645226208583nat) == 12337625611285491365435714267888355155173368500980642438451063730018263086667nat);
    lemma_fundamental_div_mod_converse(12337625611285491365435714267888355155173368500980642438451063730018263086667int * 12337625611285491365435714267888355155173368500980642438451063730018263086667int, m, 6954281648623577090273913415845954981649418676107530395954425699472260958486int, 17690069457513971520505809809345265890748079088175926563714525447911013283551int);
    assert(mod_pow(3, 43797707330222, 21888242871839275222246405745257275088696311157297823662689037894645226208583nat) == 17690069457513971520505809809345265890748079088175926563714525447911013283551nat);
    lemma_fundamental_div_mod_converse(17690069457513971520505809809345265890748079088175926563714525447911013283551int * 17690069457513971520505809809345265890748079088175926563714525447911013283551int, m, 14297107321222461535893829365447998074139177561759996128011934728787977964366int, 11174964465737635706550174257675593345488583281159783752888157377550269816223int);
    assert(mod_pow(3, 87595414660444, 21888242871839275222246405745257275088696311157297823662689037894645226208583nat) == 11174964465737635706550174257675593345488583281159783752888157377550269816223nat);
    lemma_fundamental_div_mod_converse(11174964465737635706550174257675593345488583281159783752888157377550269816223int * 11174964465737635706550174257675593345488583281159783752888157377550269816223int, m, 5705338319832210196823830885269495931918257836469574288299583528508356873999int, 6711680168623796668599519684149075115976754023552535576521807440613570652312int);
    assert(mod_pow(3, 175190829320888, 21888242871839275222246405745257275088696311157297823662689037894645226208583nat) == 6711680168623796668599519684149075115976754023552535576521807440613570652312nat);
    lemma_fundamental_div_mod_converse(6711680168623796668599519684149075115976754023552535576521807440613570652312int * 6711680168623796668599519684149075115976754023552535576521807440613570652312int, m, 2058029552653290388153976098823706115526668776277966460288427690266138418869int, 2520368841463116532045118087573725718513097110639341335820579817453973992717int);
    lemma_fundamental_div_mod_converse(2520368841463116532045118087573725718513097110639341335820579817453973992717int * 3, m, 0int, 7561106524389349596135354262721177155539291331918024007461739452361921978151int);
    assert(mod_pow(3, 350381658641777, 21888242871839275222246405745257275088696311157297823662689037894645226208583nat) == 7561106524389349596135354262721177155539291331918024007461739452361921978151nat);
    lemma_fundamental_div_mod_converse(7561106524389349596135354262721177155539291331918024007461739452361921978151int * 7561106524389349596135354262721177155539291331918024007461739452361921978151int, m, 2611919659696244544022898584881326364685464074425023030411359713705342649794int, 15411575136631317009949356241450085532412312029398961443061070579263555396899int);
    lemma_fundamental_div_mod_converse(15411575136631317009949356241450085532412312029398961443061070579263555396899int * 3, m, 2int, 2458239666215400585355257233835706419844313773601237003805135948500213773531int);
    assert(mod_pow(3, 700763317283555, 21888242871839275222246405745257275088696311157297823662689037894645226208583nat) == 2458239666215400585355257233835706419844313773601237003805135948500213773531nat);
    lemma_fundamental_div_mod_converse(2458239666215400585355257233835706419844313773601237003805135948500213773531int * 2458239666215400585355257233835706419844313773601237003805135948500213773531int, m, 276081652233924336923054042933881981367269088347933701113474261390160652172int, 15414291230997711013029445674050088536909304202184395855500737735912372215685int);
    assert(mod_pow(3, 1401526634567110, 21888242871839275222246405745257275088696311157297823662689037894645226208583nat) == 15414291230997711013029445674050088536909304202184395855500737735912372215685nat);
    lemma_fundamental_div_mod_converse(15414291230997711013029445674050088536909304202184395855500737735912372215685int * 15414291230997711013029445674050088536909304202184395855500737735912372215685int, m, 10855159801781169777402169188260104058420165831935831941006739453997644830868int, 17254934389901454601697394742025849470711723476234894909406978079568235079181int);
    assert(mod_pow(3, 2803053269134220, 21888242871839275222246405745257275088696311157297823662689037894645226208583nat) == 17254934389901454601697394742025849470711723476234894909406978079568235079181nat);
    lemma_fundamental_div_mod_converse(17254934389901454601697394742025849470711723476234894909406978079568235079181int * 17254934389901454601697394742025849470711723476234894909406978079568235079181int, m, 13602405754682916466934458835301557116995630460669744067653925285019781989116int, 2186420582732182575443175282781946908607495441856209949392511115290487848133int);
    lemma_fundamental_div_mod_converse(2186420582732182575443175282781946908607495441856209949392511115290487848133int * 3, m, 0int, 6559261748196547726329525848345840725822486325568629848177533345871463544399int);
    assert(mod_pow(3, 5606106538268441, 21888242871839275222246405745257275088696311157297823662689037894645226208583nat) == 6559261748196547726329525848345840725822486325568629848177533345871463544399nat);
    lemma_fundamental_div_mod_converse(6559261748196547726329525848345840725822486325568629848177533345871463544399int * 6559261748196547726329525848345840725822486325568629848177533345871463544399int, m, 1965617566164145901772876987707893811941592442938342555011025786460164018719int, 1559569865856735548467363571904375133696755276022409338815934378090833806024int);
    lemma_fundamental_div_mod_converse(1559569865856735548467363571904375133696755276022409338815934378090833806024int * 3, m, 0int, 4678709597570206645402090715713125401090265828067228016447803134272501418072int);
    assert(mod_pow(3, 11212213076536883, 21888242871839275222246405745257275088696311157297823662689037894645226208583nat) == 4678709597570206645402090715713125401090265828067228016447803134272501418072nat);
    lemma_fundamental_div_mod_converse(4678709597570206645402090715713125401090265828067228016447803134272501418072int * 4678709597570206645402090715713125401090265828067228016447803134272501418072int, m, 1000095056810565943783052772449667375673508760856562288934645254133378486456int, 9645245618229241130042378970533376667586680094631583559304624278707031745336int);
    assert(mod_pow(3, 22424426153073766, 21888242871839275222246405745257275088696311157297823662689037894645226208583nat) == 9645245618229241130042378970533376667586680094631583559304624278707031745336nat);
    lemma_fundamental_div_mod_converse(9645245618229241130042378970533376667586680094631583559304624278707031745336int * 9645245618229241130042378970533376667586680094631583559304624278707031745336int, m, 4250261822325666412719329706338685332582382134778373856911942850241120983671int, 2948795651964685617028243616789668358156425091506164296684335201027574704703int);
    assert(mod_pow(3, 44848852306147532, 21888242871839275222246405745257275088696311157297823662689037894645226208583nat) == 2948795651964685617028243616789668358156425091506164296684335201027574704703nat);
    lemma_fundamental_div_mod_converse(2948795651964685617028243616789668358156425091506164296684335201027574704703int * 2948795651964685617028243616789668358156425091506164296684335201027574704703int, m, 397263309255082235144278028927194297132298155168645442107203265217298472478int, 253015227971500885822309070141600363427449765965300016113290590600337439535int);
    lemma_fundamental_div_mod_converse(253015227971500885822309070141600363427449765965300016113290590600337439535int * 3, m, 0int, 759045683914502657466927210424801090282349297895900048339871771801012318605int);
    assert(mod_pow(3, 89697704612295065, 21888242871839275222246405745257275088696311157297823662689037894645226208583nat) == 759045683914502657466927210424801090282349297895900048339871771801012318605nat);
    lemma_fundamental_div_mod_converse(759045683914502657466927210424801090282349297895900048339871771801012318605int * 759045683914502657466927210424801090282349297895900048339871771801012318605int, m, 26322366470562696286488948174123722115460957134901078833222135958004019711int, 13685447011277897760947253009701139920000613667729702323002118682555899766512int);
    assert(mod_pow(3, 179395409224590130, 21888242871839275222246405745257275088696311157297823662689037894645226208583nat) == 13685447011277897760947253009701139920000613667729702323002118682555899766512nat);
    lemma_fundamental_div_mod_converse(13685447011277897760947253009701139920000613667729702323002118682555899766512int * 13685447011277897760947253009701139920000613667729702323002118682555899766512int, m, 8556715173306964958893121940123219722967477863564966574853000019798425185500int, 6506154474454862535262615788821127014523055281671320048009749421752649499644int);
    lemma_fundamental_div_mod_converse(6506154474454862535262615788821127014523055281671320048009749421752649499644int * 3, m, 0int, 19518463423364587605787847366463381043569165845013960144029248265257948498932int);
    assert(mod_pow(3, 358790818449180261, 21888242871839275222246405745257275088696311157297823662689037894645226208583nat) == 19518463423364587605787847366463381043569165845013960144029248265257948498932nat);
    lemma_fundamental_div_mod_converse(19518463423364587605787847366463381043569165845013960144029248265257948498932int * 19518463423364587605787847366463381043569165845013960144029248265257948498932int, m, 17405253433996102458596449675737428779269048441158176235468414717220896864517int, 416591125355588972280582049361129702997047121468262974853764472095471591213int);
    assert(mod_pow(3, 717581636898360522, 21888242871839275222246405745257275088696311157297823662689037894645226208583nat) == 416591125355588972280582049361129702997047121468262974853764472095471591213nat);
    lemma_fundamental_div_mod_converse(416591125355588972280582049361129702997047121468262974853764472095471591213int * 416591125355588972280582049361129702997047121468262974853764472095471591213int, m, 7928830410974544518569079384109689458122928268801151366507972069764001848int, 18397247141904356981454816731486729828349981192018419705672479604779733349985int);
    lemma_fundamental_div_mod_converse(18397247141904356981454816731486729828349981192018419705672479604779733349985int * 3, m, 2int, 11415255682034520499871638703945639307657321261459611791639363025048747632789int);
    assert(mod_pow(3, 1435163273796721045, 21888242871839275222246405745257275088696311157297823662689037894645226208583nat) == 11415255682034520499871638703945639307657321261459611791639363025048747632789nat);
    lemma_fundamental_div_mod_converse(11415255682034520499871638703945639307657321261459611791639363025048747632789int * 11415255682034520499871638703945639307657321261459611791639363025048747632789int, m, 5953335909565936873234137455407599893246848166127371418323263322027501393985int, 3618367080740843372044097520460551566102778050261431120266004664842316345266int);
    lemma_fundamental_div_mod_converse(3618367080740843372044097520460551566102778050261431120266004664842316345266int * 3, m, 0int, 10855101242222530116132292561381654698308334150784293360798013994526949035798int);
    assert(mod_pow(3, 2870326547593442091, 21888242871839275222246405745257275088696311157297823662689037894645226208583nat) == 10855101242222530116132292561381654698308334150784293360798013994526949035798nat);
    lemma_fundamental_div_mod_converse(10855101242222530116132292561381654698308334150784293360798013994526949035798int * 10855101242222530116132292561381654698308334150784293360798013994526949035798int, m, 5383402572277815623557245113470965730451438864793851559720713179121467276928int, 3577370541443532881104493648306019282624826718342432263168405204287134023780int);
    assert(mod_pow(3, 5740653095186884182, 21888242871839275222246405745257275088696311157297823662689037894645226208583nat) == 3577370541443532881104493648306019282624826718342432263168405204287134023780nat);
    lemma_fundamental_div_mod_converse(3577370541443532881104493648306019282624826718342432263168405204287134023780int * 3577370541443532881104493648306019282624826718342432263168405204287134023780int, m, 584678270691749289356439432828216150461459286700506755044974066292193325690int, 19038136278923176088895610117823313598384355101561093064903352805877213091130int);
    lemma_fundamental_div_mod_converse(19038136278923176088895610117823313598384355101561093064903352805877213091130int * 3, m, 2int, 13337923093090977822194018862955390617760442990087631869331982628341186856224int);
    assert(mod_pow(3, 11481306190373768365nat, 21888242871839275222246405745257275088696311157297823662689037894645226208583nat) == 13337923093090977822194018862955390617760442990087631869331982628341186856224nat);
    lemma_fundamental_div_mod_converse(13337923093090977822194018862955390617760442990087631869331982628341186856224int * 13337923093090977822194018862955390617760442990087631869331982628341186856224int, m, 8127659834499113162104256178822360497423965094510381559500884525522968635148int, 5769090673702319837572715993255281894321297578720034560499578152646174462892int);
    lemma_fundamental_div_mod_converse(5769090673702319837572715993255281894321297578720034560499578152646174462892int * 3, m, 0int, 17307272021106959512718147979765845682963892736160103681498734457938523388676int);
    assert(mod_pow(3, 22962612380747536731nat, 21888242871839275222246405745257275088696311157297823662689037894645226208583nat) == 17307272021106959512718147979765845682963892736160103681498734457938523388676nat);
    lemma_fundamental_div_mod_converse(17307272021106959512718147979765845682963892736160103681498734457938523388676int * 17307272021106959512718147979765845682963892736160103681498734457938523388676int, m, 13685048478604587441822658436588784512560133751263689838134138115957290810585int, 1687264832977799485426412650390936097051329159607963978444899695775810781921int);
    assert(mod_pow(3, 45925224761495073462nat, 21888242871839275222246405745257275088696311157297823662689037894645226208583nat) == 1687264832977799485426412650390936097051329159607963978444899695775810781921nat);
    lemma_fundamental_div_mod_converse(1687264832977799485426412650390936097051329159607963978444899695775810781921int * 1687264832977799485426412650390936097051329159607963978444899695775810781921int, m, 130063552075543052731192378074454738527744078274135472739246327301807851072int, 1971125380882283380574735802292599127315729053833958677441715058104148299265int);
    assert(mod_pow(3, 91850449522990146924nat, 21888242871839275222246405745257275088696311157297823662689037894645226208583nat) == 1971125380882283380574735802292599127315729053833958677441715058104148299265nat);
    lemma_fundamental_div_mod_converse(1971125380882283380574735802292599127315729053833958677441715058104148299265int * 1971125380882283380574735802292599127315729053833958677441715058104148299265int, m, 177507865291328472453136307343216709862235804029758586609472181928759348146int, 15749472189489171436429958468413068066434136845459654169694086042529889203107int);
    lemma_fundamental_div_mod_converse(15749472189489171436429958468413068066434136845459654169694086042529889203107int * 3, m, 2int, 3471930824788963864797063914724654021909788221783315183704182338299215192155int);
    assert(mod_pow(3, 183700899045980293849nat, 21888242871839275222246405745257275088696311157297823662689037894645226208583nat) == 3471930824788963864797063914724654021909788221783315183704182338299215192155nat);
    lemma_fundamental_div_mod_converse(3471930824788963864797063914724654021909788221783315183704182338299215192155int * 3471930824788963864797063914724654021909788221783315183704182338299215192155int, m, 550720481433823215027210205550534215468362932717943900100099349179679080873int, 15857833188572786215005075628572789269632861427291394313766281953989549811066int);
    assert(mod_pow(3, 367401798091960587698nat, 21888242871839275222246405745257275088696311157297823662689037894645226208583nat) == 15857833188572786215005075628572789269632861427291394313766281953989549811066nat);
    lemma_fundamental_div_mod_converse(15857833188572786215005075628572789269632861427291394313766281953989549811066int * 15857833188572786215005075628572789269632861427291394313766281953989549811066int, m, 11488856136557907785143117772555404421310037443679105989807127469254838691437int, 16300554652154824095053963216860063327515821308538784955122029595607758052585int);
    lemma_fundamental_div_mod_converse(16300554652154824095053963216860063327515821308538784955122029595607758052585int * 3, m, 2int, 5125178212785921840669078160065639805154841611020707539988012997532821740589int);
    assert(mod_pow(3, 734803596183921175397nat, 21888242871839275222246405745257275088696311157297823662689037894645226208583nat) == 5125178212785921840669078160065639805154841611020707539988012997532821740589nat);
    lemma_fundamental_div_mod_converse(5125178212785921840669078160065639805154841611020707539988012997532821740589int * 5125178212785921840669078160065639805154841611020707539988012997532821740589int, m, 1200071283319428671733437842184530766014568394136910618565114485700383626666int, 17521104489009996172261584909191063810616169808464288478274499563977093192643int);
    lemma_fundamental_div_mod_converse(17521104489009996172261584909191063810616169808464288478274499563977093192643int * 3, m, 2int, 8786827723351438072291943237058641254455887110797218109445422902640827160763int);
    assert(mod_pow(3, 1469607192367842350795nat, 21888242871839275222246405745257275088696311157297823662689037894645226208583nat) == 8786827723351438072291943237058641254455887110797218109445422902640827160763nat);
    lemma_fundamental_div_mod_converse(8786827723351438072291943237058641254455887110797218109445422902640827160763int * 8786827723351438072291943237058641254455887110797218109445422902640827160763int, m, 3527388739787387858688660548505948415880750650551285427853653366834395850312int, 17158931006972292401500357203844873478739620473440514726621604163367689114273int);
    assert(mod_pow(3, 2939214384735684701590nat, 21888242871839275222246405745257275088696311157297823662689037894645226208583nat) == 17158931006972292401500357203844873478739620473440514726621604163367689114273nat);
    lemma_fundamental_div_mod_converse(17158931006972292401500357203844873478739620473440514726621604163367689114273int * 17158931006972292401500357203844873478739620473440514726621604163367689114273int, m, 13451464104541628008558841466432856257895402606857788414304798879266303499799int, 17732450263994237258049997486379981752099206582273850559277362482170779743712int);
    assert(mod_pow(3, 5878428769471369403180nat, 21888242871839275222246405745257275088696311157297823662689037894645226208583nat) == 17732450263994237258049997486379981752099206582273850559277362482170779743712nat);
    lemma_fundamental_div_mod_converse(17732450263994237258049997486379981752099206582273850559277362482170779743712int * 17732450263994237258049997486379981752099206582273850559277362482170779743712int, m, 14365693683414745031275697781520382246979096730459199030637342279536344182445int, 20229452684261710294510355031340522125293093311582858621797672408800226613509int);
    assert(mod_pow(3, 11756857538942738806360nat, 21888242871839275222246405745257275088696311157297823662689037894645226208583nat) == 20229452684261710294510355031340522125293093311582858621797672408800226613509nat);
    lemma_fundamental_div_mod_converse(20229452684261710294510355031340522125293093311582858621797672408800226613509int * 20229452684261710294510355031340522125293093311582858621797672408800226613509int, m, 18696373130585403635487673998514544407625936344758563770657072414973255303399int, 16010991762016185390391595657926106572938156791502957601134191848648338419464int);
    assert(mod_pow(3, 23513715077885477612720nat, 21888242871839275222246405745257275088696311157297823662689037894645226208583nat) == 16010991762016185390391595657926106572938156791502957601134191848648338419464nat);
    lemma_fundamental_div_mod_converse(16010991762016185390391595657926106572938156791502957601134191848648338419464int * 16010991762016185390391595657926106572938156791502957601134191848648338419464int, m, 11711851824029437685140722742863403448220914763495160241485008173323663691669int, 13619781483090424494829076508476998331099857125709641764622214520511620652269int);
    assert(mod_pow(3, 47027430155770955225440nat, 21888242871839275222246405745257275088696311157297823662689037894645226208583nat) == 13619781483090424494829076508476998331099857125709641764622214520511620652269nat);
    lemma_fundamental_div_mod_converse(13619781483090424494829076508476998331099857125709641764622214520511620652269int * 13619781483090424494829076508476998331099857125709641764622214520511620652269int, m, 8474798490370794945985689338023887256541265418302189754384370977522098951980int, 14958235608171579645426339969937232622696253415863684251209430585943834004021int);
    assert(mod_pow(3, 94054860311541910450880nat, 21888242871839275222246405745257275088696311157297823662689037894645226208583nat) == 14958235608171579645426339969937232622696253415863684251209430585943834004021nat);
    lemma_fundamental_div_mod_converse(14958235608171579645426339969937232622696253415863684251209430585943834004021int * 14958235608171579645426339969937232622696253415863684251209430585943834004021int, m, 10222328663825289113426443025282269906878713993391047481703862727645900536172int, 8156126336470874607980767947566245960711534009745594056564550031326635804165int);
    lemma_fundamental_div_mod_converse(8156126336470874607980767947566245960711534009745594056564550031326635804165int * 3, m, 1int, 2580136137573348601695898097441462793438290871938958507004612199334681203912int);
    assert(mod_pow(3, 188109720623083820901761nat, 21888242871839275222246405745257275088696311157297823662689037894645226208583nat) == 2580136137573348601695898097441462793438290871938958507004612199334681203912nat);
    lemma_fundamental_div_mod_converse(2580136137573348601695898097441462793438290871938958507004612199334681203912int * 2580136137573348601695898097441462793438290871938958507004612199334681203912int, m, 304140562008142568742205654265367669158050024683035204756084987061029501728int, 4454952387942066259382091257321561888645202533351881729569794963318637172320int);
    assert(mod_pow(3, 376219441246167641803522nat, 21888242871839275222246405745257275088696311157297823662689037894645226208583nat) == 4454952387942066259382091257321561888645202533351881729569794963318637172320nat);
    lemma_fundamental_div_mod_converse(4454952387942066259382091257321561888645202533351881729569794963318637172320int * 4454952387942066259382091257321561888645202533351881729569794963318637172320int, m, 906724258088561814759699764182997700554897135930193834921784382948886049049int, 4536081187372557402832137162716032971606466933013493202694134586896531394833int);
    lemma_fundamental_div_mod_converse(4536081187372557402832137162716032971606466933013493202694134586896531394833int * 3, m, 0int, 13608243562117672208496411488148098914819400799040479608082403760689594184499int);
    assert(mod_pow(3, 752438882492335283607045nat, 21888242871839275222246405745257275088696311157297823662689037894645226208583nat) == 13608243562117672208496411488148098914819400799040479608082403760689594184499nat);
    lemma_fundamental_div_mod_converse(13608243562117672208496411488148098914819400799040479608082403760689594184499int * 13608243562117672208496411488148098914819400799040479608082403760689594184499int, m, 8460445816971875715992293029779093972371783407892263751195610358469422187413int, 12805639955398438578073583676520118119870993027251702007529142629612396715222int);
    lemma_fundamental_div_mod_converse(12805639955398438578073583676520118119870993027251702007529142629612396715222int * 3, m, 1int, 16528676994356040511974345284303079270916667924457282359898389994191963937083int);
    assert(mod_pow(3, 1504877764984670567214091nat, 21888242871839275222246405745257275088696311157297823662689037894645226208583nat) == 16528676994356040511974345284303079270916667924457282359898389994191963937083nat);
    lemma_fundamental_div_mod_converse(16528676994356040511974345284303079270916667924457282359898389994191963937083int * 16528676994356040511974345284303079270916667924457282359898389994191963937083int, m, 12481457044468448855214469612599067051252537173033076750451293241819851977922int, 20330568025344707459280431702483164443810245851129936947612201059520499644363int);
    lemma_fundamental_div_mod_converse(20330568025344707459280431702483164443810245851129936947612201059520499644363int * 3, m, 2int, 17215218332355571933348483616934943154038115238794163517458527389271046515923int);
    assert(mod_pow(3, 3009755529969341134428183nat, 21888242871839275222246405745257275088696311157297823662689037894645226208583nat) == 17215218332355571933348483616934943154038115238794163517458527389271046515923nat);
    lemma_fundamental_div_mod_converse(17215218332355571933348483616934943154038115238794163517458527389271046515923int * 17215218332355571933348483616934943154038115238794163517458527389271046515923int, m, 13539859913194020142182034122067075165462903039840475858235053233480600648155int, 13599148455877877694110552765646445009013242316728786005287625427414068427564int);
    assert(mod_pow(3, 6019511059938682268856366nat, 21888242871839275222246405745257275088696311157297823662689037894645226208583nat) == 13599148455877877694110552765646445009013242316728786005287625427414068427564nat);
    lemma_fundamental_div_mod_converse(13599148455877877694110552765646445009013242316728786005287625427414068427564int * 13599148455877877694110552765646445009013242316728786005287625427414068427564int, m, 8449140472711931786058316050532623948613791580837772144500519884221962130906int, 1096316411189028241810459046130974445845723769431857213919501851841608207898int);
    lemma_fundamental_div_mod_converse(1096316411189028241810459046130974445845723769431857213919501851841608207898int * 3, m, 0int, 3288949233567084725431377138392923337537171308295571641758505555524824623694int);
    assert(mod_pow(3, 12039022119877364537712733nat, 21888242871839275222246405745257275088696311157297823662689037894645226208583nat) == 3288949233567084725431377138392923337537171308295571641758505555524824623694nat);
    lemma_fundamental_div_mod_converse(3288949233567084725431377138392923337537171308295571641758505555524824623694int * 3288949233567084725431377138392923337537171308295571641758505555524824623694int, m, 494200796487806092907914250739871615726725466398058210358432813751383310139int, 2274752052311812628624221664655460697843430305976967427341080337017313482599int);
    assert(mod_pow(3, 24078044239754729075425466nat, 21888242871839275222246405745257275088696311157297823662689037894645226208583nat) == 2274752052311812628624221664655460697843430305976967427341080337017313482599nat);
    lemma_fundamental_div_mod_converse(2274752052311812628624221664655460697843430305976967427341080337017313482599int * 2274752052311812628624221664655460697843430305976967427341080337017313482599int, m, 236405312650936840766874612030895826924530273806184067624812673197779923614int, 7777254621343339950097217463836731603174979248063713731836876883409304615839int);
    lemma_fundamental_div_mod_converse(7777254621343339950097217463836731603174979248063713731836876883409304615839int * 3, m, 1int, 1443520992190744628045246646252919720828626586893317532821592755582687638934int);
    assert(mod_pow(3, 48156088479509458150850933nat, 21888242871839275222246405745257275088696311157297823662689037894645226208583nat) == 1443520992190744628045246646252919720828626586893317532821592755582687638934nat);
    lemma_fundamental_div_mod_converse(1443520992190744628045246646252919720828626586893317532821592755582687638934int * 1443520992190744628045246646252919720828626586893317532821592755582687638934int, m, 95199640605973113148855757460391459248563317059760357076807284537655824206int, 21157371873496330191503024365130319256864654937230979963461721195474216296258int);
    assert(mod_pow(3, 96312176959018916301701866nat, 21888242871839275222246405745257275088696311157297823662689037894645226208583nat) == 21157371873496330191503024365130319256864654937230979963461721195474216296258nat);
    lemma_fundamental_div_mod_converse(21157371873496330191503024365130319256864654937230979963461721195474216296258int * 21157371873496330191503024365130319256864654937230979963461721195474216296258int, m, 20450905411385302734464495717190175630199973857447150914647672978902806086528int, 10734090128461688451005965729112093982170519970386774597566861754537950532740int);
    lemma_fundamental_div_mod_converse(10734090128461688451005965729112093982170519970386774597566861754537950532740int * 3, m, 1int, 10314027513545790130771491442079006857815248753862500130011547368968625389637int);
    assert(mod_pow(3, 192624353918037832603403733nat, 21888242871839275222246405745257275088696311157297823662689037894645226208583nat) == 10314027513545790130771491442079006857815248753862500130011547368968625389637nat);
    lemma_fundamental_div_mod_converse(10314027513545790130771491442079006857815248753862500130011547368968625389637int * 10314027513545790130771491442079006857815248753862500130011547368968625389637int, m, 4860105225122645164683407825948341345416682879012880489526305676493850944587int, 5169312795792634690280469195100031452207449250144848525823226814426830201548int);
    lemma_fundamental_div_mod_converse(5169312795792634690280469195100031452207449250144848525823226814426830201548int * 3, m, 0int, 15507938387377904070841407585300094356622347750434545577469680443280490604644int);
    assert(mod_pow(3, 385248707836075665206807467nat, 21888242871839275222246405745257275088696311157297823662689037894645226208583nat) == 15507938387377904070841407585300094356622347750434545577469680443280490604644nat);
    lemma_fundamental_div_mod_converse(15507938387377904070841407585300094356622347750434545577469680443280490604644int * 15507938387377904070841407585300094356622347750434545577469680443280490604644int, m, 10987458172630383842701076500956961686027895379825553059205352358009887607373int, 15268556353192524669589804386388240786506015455891394281449109284318607684277int);
    lemma_fundamental_div_mod_converse(15268556353192524669589804386388240786506015455891394281449109284318607684277int * 3, m, 2int, 2029183315899023564276601668650172182125424053078535518969252063665370635665int);
    assert(mod_pow(3, 770497415672151330413614935nat, 21888242871839275222246405745257275088696311157297823662689037894645226208583nat) == 2029183315899023564276601668650172182125424053078535518969252063665370635665nat);
    lemma_fundamental_div_mod_converse(2029183315899023564276601668650172182125424053078535518969252063665370635665int * 2029183315899023564276601668650172182125424053078535518969252063665370635665int, m, 188118569116414169047997006263902918339922915590811016807795313253968797355int, 21522954807148361913727377900958435816815856243911972047386270530495281294260int);
    lemma_fundamental_div_mod_converse(21522954807148361913727377900958435816815856243911972047386270530495281294260int * 3, m, 2int, 20792378677766535296689322212360757273054946417140268816780735802195391465614int);
    assert(mod_pow(3, 1540994831344302660827229871nat, 21888242871839275222246405745257275088696311157297823662689037894645226208583nat) == 20792378677766535296689322212360757273054946417140268816780735802195391465614nat);
    lemma_fundamental_div_mod_converse(20792378677766535296689322212360757273054946417140268816780735802195391465614int * 20792378677766535296689322212360757273054946417140268816780735802195391465614int, m, 19751380392249468405366862525074853358821443476189195411591334317395646471029int, 11533461381020503194196801660665577106437641251208105710817761512501523755089int);
    assert(mod_pow(3, 3081989662688605321654459742nat, 21888242871839275222246405745257275088696311157297823662689037894645226208583nat) == 11533461381020503194196801660665577106437641251208105710817761512501523755089nat);
    lemma_fundamental_div_mod_converse(11533461381020503194196801660665577106437641251208105710817761512501523755089int * 11533461381020503194196801660665577106437641251208105710817761512501523755089int, m, 6077268614313105123941385076955397273611123803502364015122424626911048656155int, 1304904085585183965728572762134469977868270849344159579947173281043376619556int);
    assert(mod_pow(3, 6163979325377210643308919484nat, 21888242871839275222246405745257275088696311157297823662689037894645226208583nat) == 1304904085585183965728572762134469977868270849344159579947173281043376619556nat);
    lemma_fundamental_div_mod_converse(1304904085585183965728572762134469977868270849344159579947173281043376619556int * 1304904085585183965728572762134469977868270849344159579947173281043376619556int, m, 77794032282401318404148890125223128906777994668942000233770194455558945050int, 5605318942547002875663973635508242097654486996107137538587426893423226272986int);
    lemma_fundamental_div_mod_converse(5605318942547002875663973635508242097654486996107137538587426893423226272986int * 3, m, 0int, 16815956827641008626991920906524726292963460988321412615762280680269678818958int);
    assert(mod_pow(3, 12327958650754421286617838969nat, 21888242871839275222246405745257275088696311157297823662689037894645226208583nat) == 16815956827641008626991920906524726292963460988321412615762280680269678818958nat);
    lemma_fundamental_div_mod_converse(16815956827641008626991920906524726292963460988321412615762280680269678818958int * 16815956827641008626991920906524726292963460988321412615762280680269678818958int, m, 12919100253264161342628881047300280948492973013723464843860857345374820811819int, 11332142069004907979657068286135593447934720872531314869373055645606254563287int);
    assert(mod_pow(3, 24655917301508842573235677938nat, 21888242871839275222246405745257275088696311157297823662689037894645226208583nat) == 11332142069004907979657068286135593447934720872531314869373055645606254563287nat);
    lemma_fundamental_div_mod_converse(11332142069004907979657068286135593447934720872531314869373055645606254563287int * 11332142069004907979657068286135593447934720872531314869373055645606254563287int, m, 5866959930224855119990555275694910032903136079405047834059175854538561469128int, 16217366263246039668604481304991408563151900441208813756916539607961245118745int);
    lemma_fundamental_div_mod_converse(16217366263246039668604481304991408563151900441208813756916539607961245118745int * 3, m, 2int, 4875613046059568561320632424459675512063079009030793945371543034593282939069int);
    assert(mod_pow(3, 49311834603017685146471355877nat, 21888242871839275222246405745257275088696311157297823662689037894645226208583nat) == 4875613046059568561320632424459675512063079009030793945371543034593282939069nat);
    lemma_fundamental_div_mod_converse(4875613046059568561320632424459675512063079009030793945371543034593282939069int * 4875613046059568561320632424459675512063079009030793945371543034593282939069int, m, 1086044353313077531476917343267729988475236848358337224853133622976670103934int, 158027041097155409924388089727341401376627382923084750891535662651393721239int);
    lemma_fundamental_div_mod_converse(158027041097155409924388089727341401376627382923084750891535662651393721239int * 3, m, 0int, 474081123291466229773164269182024204129882148769254252674606987954181163717int);
    assert(mod_pow(3, 98623669206035370292942711755nat, 21888242871839275222246405745257275088696311157297823662689037894645226208583nat) == 474081123291466229773164269182024204129882148769254252674606987954181163717nat);
    lemma_fundamental_div_mod_converse(474081123291466229773164269182024204129882148769254252674606987954181163717int * 474081123291466229773164269182024204129882148769254252674606987954181163717int, m, 10268202558664881700331233791534527827257601530478193853323895769459172272int, 302445701570431218097213793550957607095176834496048968134584212852355245513int);
    assert(mod_pow(3, 197247338412070740585885423510nat, 21888242871839275222246405745257275088696311157297823662689037894645226208583nat) == 302445701570431218097213793550957607095176834496048968134584212852355245513nat);
    lemma_fundamental_div_mod_converse(302445701570431218097213793550957607095176834496048968134584212852355245513int * 302445701570431218097213793550957607095176834496048968134584212852355245513int, m, 4179111266903801711176656469704343320629071135721871317675301900337082862int, 17159825104908498191582667607077821277140453616634432509426382532799940028623int);
    lemma_fundamental_div_mod_converse(17159825104908498191582667607077821277140453616634432509426382532799940028623int * 3, m, 2int, 7702989571046944130255191330718913654028738535307650202901071809109367668703int);
    assert(mod_pow(3, 394494676824141481171770847021nat, 21888242871839275222246405745257275088696311157297823662689037894645226208583nat) == 7702989571046944130255191330718913654028738535307650202901071809109367668703nat);
    lemma_fundamental_div_mod_converse(7702989571046944130255191330718913654028738535307650202901071809109367668703int * 7702989571046944130255191330718913654028738535307650202901071809109367668703int, m, 2710863940933233963842309617700230348498674762061701013285077229434632557937int, 16867299299311794968114510152685914320979262070244555033413635742107571528938int);
    assert(mod_pow(3, 788989353648282962343541694042nat, 21888242871839275222246405745257275088696311157297823662689037894645226208583nat) == 16867299299311794968114510152685914320979262070244555033413635742107571528938nat);
    lemma_fundamental_div_mod_converse(16867299299311794968114510152685914320979262070244555033413635742107571528938int * 16867299299311794968114510152685914320979262070244555033413635742107571528938int, m, 12998109867402849595672722417122450477807156445526986752783847642260607884600int, 10936099601784207208346457172306969622011250802518716397145056836764977886044int);
    lemma_fundamental_div_mod_converse(10936099601784207208346457172306969622011250802518716397145056836764977886044int * 3, m, 1int, 10920055933513346402792965771663633777337441250258325528746132615649707449549int);
    assert(mod_pow(3, 1577978707296565924687083388085nat, 21888242871839275222246405745257275088696311157297823662689037894645226208583nat) == 10920055933513346402792965771663633777337441250258325528746132615649707449549nat);
    lemma_fundamental_div_mod_converse(10920055933513346402792965771663633777337441250258325528746132615649707449549int * 10920055933513346402792965771663633777337441250258325528746132615649707449549int, m, 5448021674891056802102365727899221486554466473955134203787064439922990448605int, 11879288054119678031545794242440149799228088273970814570153705750739908926686int);
    lemma_fundamental_div_mod_converse(11879288054119678031545794242440149799228088273970814570153705750739908926686int * 3, m, 1int, 13749621290519758872390976982063174308987953664614620047772079357574500571475int);
    assert(mod_pow(3, 3155957414593131849374166776171nat, 21888242871839275222246405745257275088696311157297823662689037894645226208583nat) == 13749621290519758872390976982063174308987953664614620047772079357574500571475nat);
    lemma_fundamental_div_mod_converse(13749621290519758872390976982063174308987953664614620047772079357574500571475int * 13749621290519758872390976982063174308987953664614620047772079357574500571475int, m, 8637152225496488167217179578626355663416936206864260539361341703834427358700int, 20965492642355165805881283471177132342098684372151976481512574134173623953525int);
    assert(mod_pow(3, 6311914829186263698748333552342nat, 21888242871839275222246405745257275088696311157297823662689037894645226208583nat) == 20965492642355165805881283471177132342098684372151976481512574134173623953525nat);
    lemma_fundamental_div_mod_converse(20965492642355165805881283471177132342098684372151976481512574134173623953525int * 20965492642355165805881283471177132342098684372151976481512574134173623953525int, m, 20081643113626184089532922723227068046197992060311396552192222942262800514457int, 16718318089510341246303045483289930498414129199796713707147997636899370941194int);
    lemma_fundamental_div_mod_converse(16718318089510341246303045483289930498414129199796713707147997636899370941194int * 3, m, 2int, 6378468524852473294416324959355241317849765284794493796065917121407660406416int);
    assert(mod_pow(3, 12623829658372527397496667104685nat, 21888242871839275222246405745257275088696311157297823662689037894645226208583nat) == 6378468524852473294416324959355241317849765284794493796065917121407660406416nat);
    lemma_fundamental_div_mod_converse(6378468524852473294416324959355241317849765284794493796065917121407660406416int * 6378468524852473294416324959355241317849765284794493796065917121407660406416int, m, 1858754079107809461488514113621649855293226059717414870293567056084908253610int, 251081623135918148558378067352132571412517723110456268261734089074171230426int);
    lemma_fundamental_div_mod_converse(251081623135918148558378067352132571412517723110456268261734089074171230426int * 3, m, 0int, 753244869407754445675134202056397714237553169331368804785202267222513691278int);
    assert(mod_pow(3, 25247659316745054794993334209371nat, 21888242871839275222246405745257275088696311157297823662689037894645226208583nat) == 753244869407754445675134202056397714237553169331368804785202267222513691278nat);
    lemma_fundamental_div_mod_converse(753244869407754445675134202056397714237553169331368804785202267222513691278int * 753244869407754445675134202056397714237553169331368804785202267222513691278int, m, 25921579754539160494783193121349832676055114427133766042450165087403325317int, 9691774824008306752134195357279149960614257499196745023469552453326646677473int);
    assert(mod_pow(3, 50495318633490109589986668418742nat, 21888242871839275222246405745257275088696311157297823662689037894645226208583nat) == 9691774824008306752134195357279149960614257499196745023469552453326646677473nat);
    lemma_fundamental_div_mod_converse(9691774824008306752134195357279149960614257499196745023469552453326646677473int * 9691774824008306752134195357279149960614257499196745023469552453326646677473int, m, 4291367735147405140867873429729391529615840236883402060609452001308171003310int, 14214761039216625762487648125233297228647320940758640778209872658219642255999int);
    lemma_fundamental_div_mod_converse(14214761039216625762487648125233297228647320940758640778209872658219642255999int * 3, m, 1int, 20756040245810602065216538630442616597245651664978098671940580080013700559414int);
    assert(mod_pow(3, 100990637266980219179973336837485nat, 21888242871839275222246405745257275088696311157297823662689037894645226208583nat) == 20756040245810602065216538630442616597245651664978098671940580080013700559414nat);
    lemma_fundamental_div_mod_converse(20756040245810602065216538630442616597245651664978098671940580080013700559414int * 20756040245810602065216538630442616597245651664978098671940580080013700559414int, m, 19682402521217459559865108391422029403274386115241653382509384190759788799628int, 8239042503382648896593986810780762095165823501557484188994198858453423216272int);
    lemma_fundamental_div_mod_converse(8239042503382648896593986810780762095165823501557484188994198858453423216272int * 3, m, 1int, 2828884638308671467535554687085011196801159347374628904293558680715043440233int);
    assert(mod_pow(3, 201981274533960438359946673674971nat, 21888242871839275222246405745257275088696311157297823662689037894645226208583nat) == 2828884638308671467535554687085011196801159347374628904293558680715043440233nat);
    lemma_fundamental_div_mod_converse(2828884638308671467535554687085011196801159347374628904293558680715043440233int * 2828884638308671467535554687085011196801159347374628904293558680715043440233int, m, 365611271024165277718659028422324704953469549121137677471763010214307980623int, 10728417346128581233485617558760316517437344539123305507058097701786522807080int);
    assert(mod_pow(3, 403962549067920876719893347349942nat, 21888242871839275222246405745257275088696311157297823662689037894645226208583nat) == 10728417346128581233485617558760316517437344539123305507058097701786522807080nat);
    lemma_fundamental_div_mod_converse(10728417346128581233485617558760316517437344539123305507058097701786522807080int * 10728417346128581233485617558760316517437344539123305507058097701786522807080int, m, 5258482347196325389621947361514867520374515107701671371957691198867836057281int, 626094073019519388525651761036507477934320318209751689481844657964056283577int);
    assert(mod_pow(3, 807925098135841753439786694699884nat, 21888242871839275222246405745257275088696311157297823662689037894645226208583nat) == 626094073019519388525651761036507477934320318209751689481844657964056283577nat);
    lemma_fundamental_div_mod_converse(626094073019519388525651761036507477934320318209751689481844657964056283577int * 626094073019519388525651761036507477934320318209751689481844657964056283577int, m, 17908874210021588970816741327890053972828937558024158159300202940844796353int, 459569430001191849953357378623709074700639392703187783159358918406104217130int);
    lemma_fundamental_div_mod_converse(459569430001191849953357378623709074700639392703187783159358918406104217130int * 3, m, 0int, 1378708290003575549860072135871127224101918178109563349478076755218312651390int);
    assert(mod_pow(3, 1615850196271683506879573389399769nat, 21888242871839275222246405745257275088696311157297823662689037894645226208583nat) == 1378708290003575549860072135871127224101918178109563349478076755218312651390nat);
    lemma_fundamental_div_mod_converse(1378708290003575549860072135871127224101918178109563349478076755218312651390int * 1378708290003575549860072135871127224101918178109563349478076755218312651390int, m, 86842811460674163705355403323283047221178317614520686608352790633904947667int, 8644493800195736612191468604918697493357188363143743961363316803748227706239int);
    lemma_fundamental_div_mod_converse(8644493800195736612191468604918697493357188363143743961363316803748227706239int * 3, m, 1int, 4045238528747934614328000069498817391375253932133408221400912516599456910134int);
    assert(mod_pow(3, 3231700392543367013759146778799539nat, 21888242871839275222246405745257275088696311157297823662689037894645226208583nat) == 4045238528747934614328000069498817391375253932133408221400912516599456910134nat);
    lemma_fundamental_div_mod_converse(4045238528747934614328000069498817391375253932133408221400912516599456910134int * 4045238528747934614328000069498817391375253932133408221400912516599456910134int, m, 747613906254672643240239824321181685712235112670861273330873255642921447102int, 9528099283188679908075827130501974379258309446555295876573862812083299021490int);
    lemma_fundamental_div_mod_converse(9528099283188679908075827130501974379258309446555295876573862812083299021490int * 3, m, 1int, 6696054977726764501981075646248648049078617182368063967032550541604670855887int);
    assert(mod_pow(3, 6463400785086734027518293557599079nat, 21888242871839275222246405745257275088696311157297823662689037894645226208583nat) == 6696054977726764501981075646248648049078617182368063967032550541604670855887nat);
    lemma_fundamental_div_mod_converse(6696054977726764501981075646248648049078617182368063967032550541604670855887int * 6696054977726764501981075646248648049078617182368063967032550541604670855887int, m, 2048458276311683766477557416380608904199625276435056952277294627103023623467int, 11494331954883413987461589901771536025698286768278681173665229690022126939508int);
    lemma_fundamental_div_mod_converse(11494331954883413987461589901771536025698286768278681173665229690022126939508int * 3, m, 1int, 12594752992810966740138363960057332988398549147538219858306651175421154609941int);
    assert(mod_pow(3, 12926801570173468055036587115198159nat, 21888242871839275222246405745257275088696311157297823662689037894645226208583nat) == 12594752992810966740138363960057332988398549147538219858306651175421154609941nat);
    lemma_fundamental_div_mod_converse(12594752992810966740138363960057332988398549147538219858306651175421154609941int * 12594752992810966740138363960057332988398549147538219858306651175421154609941int, m, 7247169353827224989772787963180207375407265833967231415508822947647759310269int, 8169109332094574931881239705735281630727391690038303583085495398349848184654int);
    assert(mod_pow(3, 25853603140346936110073174230396318nat, 21888242871839275222246405745257275088696311157297823662689037894645226208583nat) == 8169109332094574931881239705735281630727391690038303583085495398349848184654nat);
    lemma_fundamental_div_mod_converse(8169109332094574931881239705735281630727391690038303583085495398349848184654int * 8169109332094574931881239705735281630727391690038303583085495398349848184654int, m, 3048867269540991077116677890564580945473197413718400090276061651416509383686int, 16891803106803085508952456003295470239322801827157348412660678597739467722778int);
    assert(mod_pow(3, 51707206280693872220146348460792636nat, 21888242871839275222246405745257275088696311157297823662689037894645226208583nat) == 16891803106803085508952456003295470239322801827157348412660678597739467722778nat);
    lemma_fundamental_div_mod_converse(16891803106803085508952456003295470239322801827157348412660678597739467722778int * 16891803106803085508952456003295470239322801827157348412660678597739467722778int, m, 13035903058536637954003374296625550559390993898629021694682661421852798047512int, 1595226794253938336724139022717130312725747152220047663379230908328203841788int);
    assert(mod_pow(3, 103414412561387744440292696921585272nat, 21888242871839275222246405745257275088696311157297823662689037894645226208583nat) == 1595226794253938336724139022717130312725747152220047663379230908328203841788nat);
    lemma_fundamental_div_mod_converse(1595226794253938336724139022717130312725747152220047663379230908328203841788int * 1595226794253938336724139022717130312725747152220047663379230908328203841788int, m, 116260978097044524308530761115092872909111016478007294875765586041551894123int, 5912742369594860752410649848519396310217146628375663721138436067977005179235int);
    assert(mod_pow(3, 206828825122775488880585393843170544nat, 21888242871839275222246405745257275088696311157297823662689037894645226208583nat) == 5912742369594860752410649848519396310217146628375663721138436067977005179235nat);
    lemma_fundamental_div_mod_converse(5912742369594860752410649848519396310217146628375663721138436067977005179235int * 5912742369594860752410649848519396310217146628375663721138436067977005179235int, m, 1597228362911732729601627258412025996243027783326010847331042940182944303080int, 16322772017267337672145989352950222313062661570430588481435131143846825849585int);
    lemma_fundamental_div_mod_converse(16322772017267337672145989352950222313062661570430588481435131143846825849585int * 3, m, 2int, 5191830308123462571945156568336116761795362396696118118927317642250025131589int);
    assert(mod_pow(3, 413657650245550977761170787686341089nat, 21888242871839275222246405745257275088696311157297823662689037894645226208583nat) == 5191830308123462571945156568336116761795362396696118118927317642250025131589nat);
    lemma_fundamental_div_mod_converse(5191830308123462571945156568336116761795362396696118118927317642250025131589int * 5191830308123462571945156568336116761795362396696118118927317642250025131589int, m, 1231487703520914170589385759092766398074877830073811757154668208442337744486int, 3933427560780345008972497639075350791339141297761714316296665166239171541583int);
    assert(mod_pow(3, 827315300491101955522341575372682178nat, 21888242871839275222246405745257275088696311157297823662689037894645226208583nat) == 3933427560780345008972497639075350791339141297761714316296665166239171541583nat);
    lemma_fundamental_div_mod_converse(3933427560780345008972497639075350791339141297761714316296665166239171541583int * 3933427560780345008972497639075350791339141297761714316296665166239171541583int, m, 706856757141159710218598152223118443087165725810274747176850520567409739491int, 1403435382437163931126134584729227919592477061120618336989301820343039894636int);
    lemma_fundamental_div_mod_converse(1403435382437163931126134584729227919592477061120618336989301820343039894636int * 3, m, 0int, 4210306147311491793378403754187683758777431183361855010967905461029119683908int);
    assert(mod_pow(3, 1654630600982203911044683150745364357nat, 21888242871839275222246405745257275088696311157297823662689037894645226208583nat) == 4210306147311491793378403754187683758777431183361855010967905461029119683908nat);
    lemma_fundamental_div_mod_converse(4210306147311491793378403754187683758777431183361855010967905461029119683908int * 4210306147311491793378403754187683758777431183361855010967905461029119683908int, m, 809872128972742867499615338875247125642391751123735001118823199419131880900int, 10478261470871889465253761360299884673508838350847014955638983140533320387764int);
    assert(mod_pow(3, 3309261201964407822089366301490728714nat, 21888242871839275222246405745257275088696311157297823662689037894645226208583nat) == 10478261470871889465253761360299884673508838350847014955638983140533320387764nat);
    lemma_fundamental_div_mod_converse(10478261470871889465253761360299884673508838350847014955638983140533320387764int * 10478261470871889465253761360299884673508838350847014955638983140533320387764int, m, 5016115916422683350986725868741505039027172225362771952541224138514284259388int, 19219431730456408804759030574435799475542464537674276758117925779907956992492int);
    lemma_fundamental_div_mod_converse(19219431730456408804759030574435799475542464537674276758117925779907956992492int * 3, m, 2int, 13881809447690675969784280232792848249234771298427182948975701550433418560310int);
    assert(mod_pow(3, 6618522403928815644178732602981457429nat, 21888242871839275222246405745257275088696311157297823662689037894645226208583nat) == 13881809447690675969784280232792848249234771298427182948975701550433418560310nat);
    lemma_fundamental_div_mod_converse(13881809447690675969784280232792848249234771298427182948975701550433418560310int * 13881809447690675969784280232792848249234771298427182948975701550433418560310int, m, 8804024821468050783906672144017611326547959747504160884214837059598220430907int, 622848727167795764809369044049995341647434648016828040711041635180985421319int);
    assert(mod_pow(3, 13237044807857631288357465205962914858nat, 21888242871839275222246405745257275088696311157297823662689037894645226208583nat) == 622848727167795764809369044049995341647434648016828040711041635180985421319nat);
    lemma_fundamental_div_mod_converse(622848727167795764809369044049995341647434648016828040711041635180985421319int * 622848727167795764809369044049995341647434648016828040711041635180985421319int, m, 17723694825848966527998343739408790138104559937059388753359031906722340726int, 20304347836740042129805184270603164644500718999046390552879703598875868048503int);
    assert(mod_pow(3, 26474089615715262576714930411925829716nat, 21888242871839275222246405745257275088696311157297823662689037894645226208583nat) == 20304347836740042129805184270603164644500718999046390552879703598875868048503nat);
    lemma_fundamental_div_mod_converse(20304347836740042129805184270603164644500718999046390552879703598875868048503int * 20304347836740042129805184270603164644500718999046390552879703598875868048503int, m, 18835067917020383226456829751097354341540079519212118665755521606852325094073int, 15154588997486394629947699229307217200538249266130788625526630487582965512450int);
    lemma_fundamental_div_mod_converse(15154588997486394629947699229307217200538249266130788625526630487582965512450int * 3, m, 2int, 1687281248780633445350286197407101424222125483796718551201815673458444120184int);
    assert(mod_pow(3, 52948179231430525153429860823851659433nat, 21888242871839275222246405745257275088696311157297823662689037894645226208583nat) == 1687281248780633445350286197407101424222125483796718551201815673458444120184nat);
    lemma_fundamental_div_mod_converse(1687281248780633445350286197407101424222125483796718551201815673458444120184int * 1687281248780633445350286197407101424222125483796718551201815673458444120184int, m, 130066082926624001263658500373033464892890348318301767756024987933057966541int, 5125829769837069850675529951364914518472384526647643167436276780868735172453int);
    assert(mod_pow(3, 105896358462861050306859721647703318866nat, 21888242871839275222246405745257275088696311157297823662689037894645226208583nat) == 5125829769837069850675529951364914518472384526647643167436276780868735172453nat);
    lemma_fundamental_div_mod_converse(5125829769837069850675529951364914518472384526647643167436276780868735172453int * 5125829769837069850675529951364914518472384526647643167436276780868735172453int, m, 1200376429628867959283829673709771616440817276841918180934031813138641951258int, 15581389231951928248479483933699363056264636504994534139565840345195222789795int);
    assert(mod_pow(3, 211792716925722100613719443295406637732nat, 21888242871839275222246405745257275088696311157297823662689037894645226208583nat) == 15581389231951928248479483933699363056264636504994534139565840345195222789795nat);
    lemma_fundamental_div_mod_converse(15581389231951928248479483933699363056264636504994534139565840345195222789795int * 15581389231951928248479483933699363056264636504994534139565840345195222789795int, m, 11091785294010064802394173942979124145111632795564478783081742652874296605083int, 13647061990443576370883914755733839541463794398701759580703815212650220114636int);
    lemma_fundamental_div_mod_converse(13647061990443576370883914755733839541463794398701759580703815212650220114636int * 3, m, 1int, 19052943099491453890405338521944243535695072038807455079422407743305434135325int);
    assert(mod_pow(3, 423585433851444201227438886590813275465nat, 21888242871839275222246405745257275088696311157297823662689037894645226208583nat) == 19052943099491453890405338521944243535695072038807455079422407743305434135325nat);
    lemma_fundamental_div_mod_converse(19052943099491453890405338521944243535695072038807455079422407743305434135325int * 19052943099491453890405338521944243535695072038807455079422407743305434135325int, m, 16584914690411363622056139967057494534150462756388863979110137567058697758954int, 4944806165062232468243567556177952914459233839663243585846381072522152953443int);
    lemma_fundamental_div_mod_converse(4944806165062232468243567556177952914459233839663243585846381072522152953443int * 3, m, 0int, 14834418495186697404730702668533858743377701518989730757539143217566458860329int);
    assert(mod_pow(3, 847170867702888402454877773181626550931nat, 21888242871839275222246405745257275088696311157297823662689037894645226208583nat) == 14834418495186697404730702668533858743377701518989730757539143217566458860329nat);
    lemma_fundamental_div_mod_converse(14834418495186697404730702668533858743377701518989730757539143217566458860329int * 14834418495186697404730702668533858743377701518989730757539143217566458860329int, m, 10053797985468235000825517336351418243486132211349497838588726606512441760117int, 9838028505024544483927564970229762779848594842043448530107730335338437504030int);
    lemma_fundamental_div_mod_converse(9838028505024544483927564970229762779848594842043448530107730335338437504030int * 3, m, 1int, 7625842643234358229536289165432013250849473368832521927634153111370086303507int);
    assert(mod_pow(3, 1694341735405776804909755546363253101863nat, 21888242871839275222246405745257275088696311157297823662689037894645226208583nat) == 7625842643234358229536289165432013250849473368832521927634153111370086303507nat);
    lemma_fundamental_div_mod_converse(7625842643234358229536289165432013250849473368832521927634153111370086303507int * 7625842643234358229536289165432013250849473368832521927634153111370086303507int, m, 2656836200140579416809107048492362287439284499874283482896120593629958269620int, 2198145806294643864314969870253981458213469393238049616018176726055448350589int);
    assert(mod_pow(3, 3388683470811553609819511092726506203726nat, 21888242871839275222246405745257275088696311157297823662689037894645226208583nat) == 2198145806294643864314969870253981458213469393238049616018176726055448350589nat);
    lemma_fundamental_div_mod_converse(2198145806294643864314969870253981458213469393238049616018176726055448350589int * 2198145806294643864314969870253981458213469393238049616018176726055448350589int, m, 220750702284431874466711570669019446031260497139943671785121612394806132745int, 5154136869552810989280602011785267013168512405511166732719203828667700296586int);
    lemma_fundamental_div_mod_converse(5154136869552810989280602011785267013168512405511166732719203828667700296586int * 3, m, 0int, 15462410608658432967841806035355801039505537216533500198157611486003100889758int);
    assert(mod_pow(3, 6777366941623107219639022185453012407453nat, 21888242871839275222246405745257275088696311157297823662689037894645226208583nat) == 15462410608658432967841806035355801039505537216533500198157611486003100889758nat);
    lemma_fundamental_div_mod_converse(15462410608658432967841806035355801039505537216533500198157611486003100889758int * 15462410608658432967841806035355801039505537216533500198157611486003100889758int, m, 10923039516267135404998051139189345598595086577760523853670783383076891650999int, 11667589275323689416263897521286197088464195017667360902655895452519254974147int);
    lemma_fundamental_div_mod_converse(11667589275323689416263897521286197088464195017667360902655895452519254974147int * 3, m, 1int, 13114524954131793026545286818601316176696273895704259045278648462912538713858int);
    assert(mod_pow(3, 13554733883246214439278044370906024814907nat, 21888242871839275222246405745257275088696311157297823662689037894645226208583nat) == 13114524954131793026545286818601316176696273895704259045278648462912538713858nat);
    lemma_fundamental_div_mod_converse(13114524954131793026545286818601316176696273895704259045278648462912538713858int * 13114524954131793026545286818601316176696273895704259045278648462912538713858int, m, 7857678013698551194475756810389392948453274503399469826250718324603151355295int, 8477616625845881519461747279064378797532415252802617847020691280921989747179int);
    lemma_fundamental_div_mod_converse(8477616625845881519461747279064378797532415252802617847020691280921989747179int * 3, m, 1int, 3544607005698369336138836091935861303900934601110029878373035948120743032954int);
    assert(mod_pow(3, 27109467766492428878556088741812049629815nat, 21888242871839275222246405745257275088696311157297823662689037894645226208583nat) == 3544607005698369336138836091935861303900934601110029878373035948120743032954nat);
    lemma_fundamental_div_mod_converse(3544607005698369336138836091935861303900934601110029878373035948120743032954int * 3544607005698369336138836091935861303900934601110029878373035948120743032954int, m, 574017699749243652974776002860091773486065821742575089116115490354350272216int, 4376309547803822467838225680707254346300092138719539979227454364647084336188int);
    assert(mod_pow(3, 54218935532984857757112177483624099259630nat, 21888242871839275222246405745257275088696311157297823662689037894645226208583nat) == 4376309547803822467838225680707254346300092138719539979227454364647084336188nat);
    lemma_fundamental_div_mod_converse(4376309547803822467838225680707254346300092138719539979227454364647084336188int * 4376309547803822467838225680707254346300092138719539979227454364647084336188int, m, 874994186163722056854744354672620452225502532443531870840344896502384910909int, 13085887407569734676090498397981594755058424331739743376303247674742300239397int);
    lemma_fundamental_div_mod_converse(13085887407569734676090498397981594755058424331739743376303247674742300239397int * 3, m, 1int, 17369419350869928806025089448687509176478961837921406466220705129581674509608int);
    assert(mod_pow(3, 108437871065969715514224354967248198519261nat, 21888242871839275222246405745257275088696311157297823662689037894645226208583nat) == 17369419350869928806025089448687509176478961837921406466220705129581674509608nat);
    lemma_fundamental_div_mod_converse(17369419350869928806025089448687509176478961837921406466220705129581674509608int * 17369419350869928806025089448687509176478961837921406466220705129581674509608int, m, 13783506074602647068263569541785734767368079692982857943574794236245457209301int, 13249283781381993468473431155235463644243129370363173989540189783059170683181int);
    assert(mod_pow(3, 216875742131939431028448709934496397038522nat, 21888242871839275222246405745257275088696311157297823662689037894645226208583nat) == 13249283781381993468473431155235463644243129370363173989540189783059170683181nat);
    lemma_fundamental_div_mod_converse(13249283781381993468473431155235463644243129370363173989540189783059170683181int * 13249283781381993468473431155235463644243129370363173989540189783059170683181int, m, 8019991451458203055585740165883947503062394232576133779538918736860684384684int, 15377381484286366207496690018510182806910442137989592931205400293856681735989int);
    lemma_fundamental_div_mod_converse(15377381484286366207496690018510182806910442137989592931205400293856681735989int * 3, m, 2int, 2355658709180548177997258565015998243338704099373131468238125092279592790801int);
    assert(mod_pow(3, 433751484263878862056897419868992794077045nat, 21888242871839275222246405745257275088696311157297823662689037894645226208583nat) == 2355658709180548177997258565015998243338704099373131468238125092279592790801nat);
    lemma_fundamental_div_mod_converse(2355658709180548177997258565015998243338704099373131468238125092279592790801int * 2355658709180548177997258565015998243338704099373131468238125092279592790801int, m, 253520942116258218842773982626036026272863018694022208488516135297211792649int, 21710930795402385965974241633231598648455152949787270487950420023820730115234int);
    lemma_fundamental_div_mod_converse(21710930795402385965974241633231598648455152949787270487950420023820730115234int * 3, m, 2int, 21356306642528607453429913409180245767972836534766164138473184282171737928536int);
    assert(mod_pow(3, 867502968527757724113794839737985588154091nat, 21888242871839275222246405745257275088696311157297823662689037894645226208583nat) == 21356306642528607453429913409180245767972836534766164138473184282171737928536nat);
    lemma_fundamental_div_mod_converse(21356306642528607453429913409180245767972836534766164138473184282171737928536int * 21356306642528607453429913409180245767972836534766164138473184282171737928536int, m, 20837297725552238286932519707587492549461391806885397790070110045959967476873int, 14997765127154172833265906631106545209341089386342546571047541239081716502337int);
    lemma_fundamental_div_mod_converse(14997765127154172833265906631106545209341089386342546571047541239081716502337int * 3, m, 2int, 1216809637783968055304908402805085450630645844431992387764547927954697089845int);
    assert(mod_pow(3, 1735005937055515448227589679475971176308183nat, 21888242871839275222246405745257275088696311157297823662689037894645226208583nat) == 1216809637783968055304908402805085450630645844431992387764547927954697089845nat);
    lemma_fundamental_div_mod_converse(1216809637783968055304908402805085450630645844431992387764547927954697089845int * 1216809637783968055304908402805085450630645844431992387764547927954697089845int, m, 67644794663206062299460776044478455396884380057917595398338495959358138241int, 14815705176959126740357452173201957789383758786496056776450714739025987401522int);
    assert(mod_pow(3, 3470011874111030896455179358951942352616366nat, 21888242871839275222246405745257275088696311157297823662689037894645226208583nat) == 14815705176959126740357452173201957789383758786496056776450714739025987401522nat);
    lemma_fundamental_div_mod_converse(14815705176959126740357452173201957789383758786496056776450714739025987401522int * 14815705176959126740357452173201957789383758786496056776450714739025987401522int, m, 10028448659667508151271309552247948865466304502718592463896750364459340008109int, 457420195282818606030081710422968776854702126160846323336542013211102516937int);
    lemma_fundamental_div_mod_converse(457420195282818606030081710422968776854702126160846323336542013211102516937int * 3, m, 0int, 1372260585848455818090245131268906330564106378482538970009626039633307550811int);
    assert(mod_pow(3, 6940023748222061792910358717903884705232733nat, 21888242871839275222246405745257275088696311157297823662689037894645226208583nat) == 1372260585848455818090245131268906330564106378482538970009626039633307550811nat);
    lemma_fundamental_div_mod_converse(1372260585848455818090245131268906330564106378482538970009626039633307550811int * 1372260585848455818090245131268906330564106378482538970009626039633307550811int, m, 86032447944731245138284419740813384009849620034717745802292888253729309553int, 19101737882194223960020805616642280000885461281252389124749329676962794264322int);
    lemma_fundamental_div_mod_converse(19101737882194223960020805616642280000885461281252389124749329676962794264322int * 3, m, 2int, 13528727902904121435569605359412289825263761529161520048869913241597930375800int);
    assert(mod_pow(3, 13880047496444123585820717435807769410465467nat, 21888242871839275222246405745257275088696311157297823662689037894645226208583nat) == 13528727902904121435569605359412289825263761529161520048869913241597930375800nat);
    lemma_fundamental_div_mod_converse(13528727902904121435569605359412289825263761529161520048869913241597930375800int * 13528727902904121435569605359412289825263761529161520048869913241597930375800int, m, 8361862564413183558696327078981508691675176466424583677216010297722213106229int, 14333261178479241942202842222926829314805360733510148928155624706240135076493int);
    assert(mod_pow(3, 27760094992888247171641434871615538820930934nat, 21888242871839275222246405745257275088696311157297823662689037894645226208583nat) == 14333261178479241942202842222926829314805360733510148928155624706240135076493nat);
    lemma_fundamental_div_mod_converse(14333261178479241942202842222926829314805360733510148928155624706240135076493int * 14333261178479241942202842222926829314805360733510148928155624706240135076493int, m, 9385969317565269081453567759845594492152797516179763120750778204132130052211int, 3206658346841740919157242884399863968007396180423397734180745884321594852036int);
    lemma_fundamental_div_mod_converse(3206658346841740919157242884399863968007396180423397734180745884321594852036int * 3, m, 0int, 9619975040525222757471728653199591904022188541270193202542237652964784556108int);
    assert(mod_pow(3, 55520189985776494343282869743231077641861869nat, 21888242871839275222246405745257275088696311157297823662689037894645226208583nat) == 9619975040525222757471728653199591904022188541270193202542237652964784556108nat);
    lemma_fundamental_div_mod_converse(9619975040525222757471728653199591904022188541270193202542237652964784556108int * 9619975040525222757471728653199591904022188541270193202542237652964784556108int, m, 4228019595825682171496182099658880209644316604884274478664587964793725472001int, 19850677858569468442856191204330833641871139221004436571064818675553247723081int);
    lemma_fundamental_div_mod_converse(19850677858569468442856191204330833641871139221004436571064818675553247723081int * 3, m, 2int, 15775547832029854884075762122477950748220795348417662387816380237369290752077int);
    assert(mod_pow(3, 111040379971552988686565739486462155283723739nat, 21888242871839275222246405745257275088696311157297823662689037894645226208583nat) == 15775547832029854884075762122477950748220795348417662387816380237369290752077nat);
    lemma_fundamental_div_mod_converse(15775547832029854884075762122477950748220795348417662387816380237369290752077int * 15775547832029854884075762122477950748220795348417662387816380237369290752077int, m, 11369935488099297296663803029305253805461546925623670330461384701210817180918int, 3952332613164527517860655996451579853522147768207622214223098344718764394735int);
    assert(mod_pow(3, 222080759943105977373131478972924310567447478nat, 21888242871839275222246405745257275088696311157297823662689037894645226208583nat) == 3952332613164527517860655996451579853522147768207622214223098344718764394735nat);
    lemma_fundamental_div_mod_converse(3952332613164527517860655996451579853522147768207622214223098344718764394735int * 3952332613164527517860655996451579853522147768207622214223098344718764394735int, m, 713667751977539680189582463466422511825897737755829667561891757350078301669int, 5243010415372633628311975770498870106376460964985929794569402108706304695198int);
    assert(mod_pow(3, 444161519886211954746262957945848621134894956nat, 21888242871839275222246405745257275088696311157297823662689037894645226208583nat) == 5243010415372633628311975770498870106376460964985929794569402108706304695198nat);
    lemma_fundamental_div_mod_converse(5243010415372633628311975770498870106376460964985929794569402108706304695198int * 5243010415372633628311975770498870106376460964985929794569402108706304695198int, m, 1255886933303020065365778825036397148936935128322462904381504235618769943388int, 20779288862605554363283615093724383434394400137855975537722498792382894560000int);
    lemma_fundamental_div_mod_converse(20779288862605554363283615093724383434394400137855975537722498792382894560000int * 3, m, 2int, 18561380844138112645358033790658600125790578098972279287789420587858231262834int);
    assert(mod_pow(3, 888323039772423909492525915891697242269789913nat, 21888242871839275222246405745257275088696311157297823662689037894645226208583nat) == 18561380844138112645358033790658600125790578098972279287789420587858231262834nat);
    lemma_fundamental_div_mod_converse(18561380844138112645358033790658600125790578098972279287789420587858231262834int * 18561380844138112645358033790658600125790578098972279287789420587858231262834int, m, 15740178910587296224193257273629628953781783516302726689692588148909440793897int, 18736954824239042506419684283575796963416052588395393753062385042767554293605int);
    lemma_fundamental_div_mod_converse(18736954824239042506419684283575796963416052588395393753062385042767554293605int * 3, m, 2int, 12434378729038577074766241360212840712855535450590533933809079339012210463649int);
    assert(mod_pow(3, 1776646079544847818985051831783394484539579827nat, 21888242871839275222246405745257275088696311157297823662689037894645226208583nat) == 12434378729038577074766241360212840712855535450590533933809079339012210463649nat);
    lemma_fundamental_div_mod_converse(12434378729038577074766241360212840712855535450590533933809079339012210463649int * 12434378729038577074766241360212840712855535450590533933809079339012210463649int, m, 7063781925413859421692197097077554864694087790498285158947017803574583508150int, 5778501749116014587523600680965423683669920663092036092345413717579769943751int);
    lemma_fundamental_div_mod_converse(5778501749116014587523600680965423683669920663092036092345413717579769943751int * 3, m, 0int, 17335505247348043762570802042896271051009761989276108277036241152739309831253int);
    assert(mod_pow(3, 3553292159089695637970103663566788969079159655nat, 21888242871839275222246405745257275088696311157297823662689037894645226208583nat) == 17335505247348043762570802042896271051009761989276108277036241152739309831253nat);
    lemma_fundamental_div_mod_converse(17335505247348043762570802042896271051009761989276108277036241152739309831253int * 17335505247348043762570802042896271051009761989276108277036241152739309831253int, m, 13729733535050947707915299400058391180073595510321453578811116410335220894249int, 13519911795966170752972733219806761898926859153621561677472548229254276410842int);
    assert(mod_pow(3, 7106584318179391275940207327133577938158319310nat, 21888242871839275222246405745257275088696311157297823662689037894645226208583nat) == 13519911795966170752972733219806761898926859153621561677472548229254276410842nat);
    lemma_fundamental_div_mod_converse(13519911795966170752972733219806761898926859153621561677472548229254276410842int * 13519911795966170752972733219806761898926859153621561677472548229254276410842int, m, 8350967962159928294397591544546379451150562886979117821239764087780251516042int, 4401819576186296408134247803631485296655628736144824208683309040772112560478int);
    assert(mod_pow(3, 14213168636358782551880414654267155876316638620nat, 21888242871839275222246405745257275088696311157297823662689037894645226208583nat) == 4401819576186296408134247803631485296655628736144824208683309040772112560478nat);
    lemma_fundamental_div_mod_converse(4401819576186296408134247803631485296655628736144824208683309040772112560478int * 4401819576186296408134247803631485296655628736144824208683309040772112560478int, m, 885224807434199220128206348270215839437334039637084351540061498769368895428int, 13150754971829634573614617201083211923034819700516917752058286923194164529960int);
    assert(mod_pow(3, 28426337272717565103760829308534311752633277240nat, 21888242871839275222246405745257275088696311157297823662689037894645226208583nat) == 13150754971829634573614617201083211923034819700516917752058286923194164529960nat);
    lemma_fundamental_div_mod_converse(13150754971829634573614617201083211923034819700516917752058286923194164529960int * 13150754971829634573614617201083211923034819700516917752058286923194164529960int, m, 7901153022730940569372152962390464238298973002741374723937825203787913968289int, 4600934147921034576807602678430279103911912565963969148228887690890175977113int);
    lemma_fundamental_div_mod_converse(4600934147921034576807602678430279103911912565963969148228887690890175977113int * 3, m, 0int, 13802802443763103730422808035290837311735737697891907444686663072670527931339int);
    assert(mod_pow(3, 56852674545435130207521658617068623505266554481nat, 21888242871839275222246405745257275088696311157297823662689037894645226208583nat) == 13802802443763103730422808035290837311735737697891907444686663072670527931339nat);
    lemma_fundamental_div_mod_converse(13802802443763103730422808035290837311735737697891907444686663072670527931339int * 13802802443763103730422808035290837311735737697891907444686663072670527931339int, m, 8704095455129764887151916693311716134065410289475290165424782904200756254255int, 3093882275041533965284778528255458329068147212541124479169932737480287062256int);
    lemma_fundamental_div_mod_converse(3093882275041533965284778528255458329068147212541124479169932737480287062256int * 3, m, 0int, 9281646825124601895854335584766374987204441637623373437509798212440861186768int);
    assert(mod_pow(3, 113705349090870260415043317234137247010533108963nat, 21888242871839275222246405745257275088696311157297823662689037894645226208583nat) == 9281646825124601895854335584766374987204441637623373437509798212440861186768nat);
    lemma_fundamental_div_mod_converse(9281646825124601895854335584766374987204441637623373437509798212440861186768int * 9281646825124601895854335584766374987204441637623373437509798212440861186768int, m, 3935855805820857110451338453235970278994171791128603469731902416341175126319int, 3199192812627154903112967631854749079127874816225946657827001698854911289847int);
    lemma_fundamental_div_mod_converse(3199192812627154903112967631854749079127874816225946657827001698854911289847int * 3, m, 0int, 9597578437881464709338902895564247237383624448677839973481005096564733869541int);
    assert(mod_pow(3, 227410698181740520830086634468274494021066217927nat, 21888242871839275222246405745257275088696311157297823662689037894645226208583nat) == 9597578437881464709338902895564247237383624448677839973481005096564733869541nat);
    lemma_fundamental_div_mod_converse(9597578437881464709338902895564247237383624448677839973481005096564733869541int * 9597578437881464709338902895564247237383624448677839973481005096564733869541int, m, 4208355709987006917776116176400194600808386657591790867016704888119579514651int, 10480258883466828010081420461318016855240197900763875381098029718291177101148int);
    lemma_fundamental_div_mod_converse(10480258883466828010081420461318016855240197900763875381098029718291177101148int * 3, m, 1int, 9552533778561208807997855638696775477024282544993802480605051260228305094861int);
    assert(mod_pow(3, 454821396363481041660173268936548988042132435855nat, 21888242871839275222246405745257275088696311157297823662689037894645226208583nat) == 9552533778561208807997855638696775477024282544993802480605051260228305094861nat);
    lemma_fundamental_div_mod_converse(9552533778561208807997855638696775477024282544993802480605051260228305094861int * 9552533778561208807997855638696775477024282544993802480605051260228305094861int, m, 4168945955362795482155259017397846239670316824271552199575281865729502408319int, 4569111726788064964638538915161988572697147669490062850005205506654280207344int);
    assert(mod_pow(3, 909642792726962083320346537873097976084264871710nat, 21888242871839275222246405745257275088696311157297823662689037894645226208583nat) == 4569111726788064964638538915161988572697147669490062850005205506654280207344nat);
    lemma_fundamental_div_mod_converse(4569111726788064964638538915161988572697147669490062850005205506654280207344int * 4569111726788064964638538915161988572697147669490062850005205506654280207344int, m, 953789762573021510915263921231958243745038790807018384708193014666830181100int, 2827858688277892183383436535439330352374632059797644806877109768239367153036int);
    assert(mod_pow(3, 1819285585453924166640693075746195952168529743420nat, 21888242871839275222246405745257275088696311157297823662689037894645226208583nat) == 2827858688277892183383436535439330352374632059797644806877109768239367153036nat);
    lemma_fundamental_div_mod_converse(2827858688277892183383436535439330352374632059797644806877109768239367153036int * 2827858688277892183383436535439330352374632059797644806877109768239367153036int, m, 365346127036865655689378317095649036893906382561631063834131754633482261008int, 16151102401305898812143941343478590740479767262506008684591906039781588185632int);
    assert(mod_pow(3, 3638571170907848333281386151492391904337059486840nat, 21888242871839275222246405745257275088696311157297823662689037894645226208583nat) == 16151102401305898812143941343478590740479767262506008684591906039781588185632nat);
    lemma_fundamental_div_mod_converse(16151102401305898812143941343478590740479767262506008684591906039781588185632int * 16151102401305898812143941343478590740479767262506008684591906039781588185632int, m, 11917727261382000117687165689920667254985354197179052691397659386036332956886int, 11601623739887736281713761810680108830448464266136902919958831075358309086886int);
    lemma_fundamental_div_mod_converse(11601623739887736281713761810680108830448464266136902919958831075358309086886int * 3, m, 1int, 12916628347823933622894879686783051402649081641112885097187455331429701052075int);
    assert(mod_pow(3, 7277142341815696666562772302984783808674118973681nat, 21888242871839275222246405745257275088696311157297823662689037894645226208583nat) == 12916628347823933622894879686783051402649081641112885097187455331429701052075nat);
    lemma_fundamental_div_mod_converse(12916628347823933622894879686783051402649081641112885097187455331429701052075int * 12916628347823933622894879686783051402649081641112885097187455331429701052075int, m, 7622324407340116871171897432803639736674862952141248128764380167618376666108int, 10282699628439060846310468869673159708671946649542418327937016142301307000661int);
    assert(mod_pow(3, 14554284683631393333125544605969567617348237947362nat, 21888242871839275222246405745257275088696311157297823662689037894645226208583nat) == 10282699628439060846310468869673159708671946649542418327937016142301307000661nat);
    lemma_fundamental_div_mod_converse(10282699628439060846310468869673159708671946649542418327937016142301307000661int * 10282699628439060846310468869673159708671946649542418327937016142301307000661int, m, 4830625841818245027881735021895367607294661667713321576349876771788903440600int, 6246458562864384337377512545919418265270617428562172797717450561905903767121int);
    assert(mod_pow(3, 29108569367262786666251089211939135234696475894724nat, 21888242871839275222246405745257275088696311157297823662689037894645226208583nat) == 6246458562864384337377512545919418265270617428562172797717450561905903767121nat);
    lemma_fundamental_div_mod_converse(6246458562864384337377512545919418265270617428562172797717450561905903767121int * 6246458562864384337377512545919418265270617428562172797717450561905903767121int, m, 1782612008010082704170772184777696996018142353591231981607998318392005730081int, 13953977501227109871477343604857849356309829185576654523753021275044497143418int);
    lemma_fundamental_div_mod_converse(13953977501227109871477343604857849356309829185576654523753021275044497143418int * 3, m, 1int, 19973689631842054392185625069316272980233176399432139908570025930488265221671int);
    assert(mod_pow(3, 58217138734525573332502178423878270469392951789449nat, 21888242871839275222246405745257275088696311157297823662689037894645226208583nat) == 19973689631842054392185625069316272980233176399432139908570025930488265221671nat);
    lemma_fundamental_div_mod_converse(19973689631842054392185625069316272980233176399432139908570025930488265221671int * 19973689631842054392185625069316272980233176399432139908570025930488265221671int, m, 18226601369743986491157231718765373965461850651247859481182066619164743865619int, 21744254216512102591631457345389663544625907623907758104011367689776151624364int);
    lemma_fundamental_div_mod_converse(21744254216512102591631457345389663544625907623907758104011367689776151624364int * 3, m, 2int, 21456276905857757330401560545654440456485100557127626986656027280038002455926int);
    assert(mod_pow(3, 116434277469051146665004356847756540938785903578899nat, 21888242871839275222246405745257275088696311157297823662689037894645226208583nat) == 21456276905857757330401560545654440456485100557127626986656027280038002455926nat);
    lemma_fundamental_div_mod_converse(21456276905857757330401560545654440456485100557127626986656027280038002455926int * 21456276905857757330401560545654440456485100557127626986656027280038002455926int, m, 21032835817677481885940154951165089282773994634378653984010144086698562695927int, 13239189653494062726147760288590099817605767537310280887798201589910265976035int);
    lemma_fundamental_div_mod_converse(13239189653494062726147760288590099817605767537310280887798201589910265976035int * 3, m, 1int, 17829326088642912956196875120513024364120991454633019000705566875085571719522int);
    assert(mod_pow(3, 232868554938102293330008713695513081877571807157799nat, 21888242871839275222246405745257275088696311157297823662689037894645226208583nat) == 17829326088642912956196875120513024364120991454633019000705566875085571719522nat);
    lemma_fundamental_div_mod_converse(17829326088642912956196875120513024364120991454633019000705566875085571719522int * 17829326088642912956196875120513024364120991454633019000705566875085571719522int, m, 14523087606275763059647773172297301522858097325576227892225920965349573268481int, 12797446199977298438356586448235800236474597530270541387589290428989070336061int);
    assert(mod_pow(3, 465737109876204586660017427391026163755143614315598nat, 21888242871839275222246405745257275088696311157297823662689037894645226208583nat) == 12797446199977298438356586448235800236474597530270541387589290428989070336061nat);
    lemma_fundamental_div_mod_converse(12797446199977298438356586448235800236474597530270541387589290428989070336061int * 12797446199977298438356586448235800236474597530270541387589290428989070336061int, m, 7482310489711382103443594648312344043244703071698757982706960467414805594505int, 19854919967746928180598953390553774885505912115683631429977476119341028359306int);
    lemma_fundamental_div_mod_converse(19854919967746928180598953390553774885505912115683631429977476119341028359306int * 3, m, 2int, 15788274159562234097304048681146774479125114032455246964554352568732632660752int);
    assert(mod_pow(3, 931474219752409173320034854782052327510287228631197nat, 21888242871839275222246405745257275088696311157297823662689037894645226208583nat) == 15788274159562234097304048681146774479125114032455246964554352568732632660752nat);
    lemma_fundamental_div_mod_converse(15788274159562234097304048681146774479125114032455246964554352568732632660752int * 15788274159562234097304048681146774479125114032455246964554352568732632660752int, m, 11388287419736327813595894777630729673574415147063436589830819033718041969918int, 6577634307365488670143986018973818024385777249806645166444707087895441799310int);
    assert(mod_pow(3, 1862948439504818346640069709564104655020574457262394nat, 21888242871839275222246405745257275088696311157297823662689037894645226208583nat) == 6577634307365488670143986018973818024385777249806645166444707087895441799310nat);
    lemma_fundamental_div_mod_converse(6577634307365488670143986018973818024385777249806645166444707087895441799310int * 6577634307365488670143986018973818024385777249806645166444707087895441799310int, m, 1976644417496628352240050403216537141178727875717874421433281744735597327926int, 4724476271028401679369941060125682307637726551242621495058324354051589687242int);
    lemma_fundamental_div_mod_converse(4724476271028401679369941060125682307637726551242621495058324354051589687242int * 3, m, 0int, 14173428813085205038109823180377046922913179653727864485174973062154769061726int);
    assert(mod_pow(3, 3725896879009636693280139419128209310041148914524789nat, 21888242871839275222246405745257275088696311157297823662689037894645226208583nat) == 14173428813085205038109823180377046922913179653727864485174973062154769061726nat);
    lemma_fundamental_div_mod_converse(14173428813085205038109823180377046922913179653727864485174973062154769061726int * 14173428813085205038109823180377046922913179653727864485174973062154769061726int, m, 9177807716034054118053607349572577126305085427101152164818590759258662538604int, 5992227761411768544188324023836347704864037608501559216143918932633604460944int);
    assert(mod_pow(3, 7451793758019273386560278838256418620082297829049578nat, 21888242871839275222246405745257275088696311157297823662689037894645226208583nat) == 5992227761411768544188324023836347704864037608501559216143918932633604460944nat);
    lemma_fundamental_div_mod_converse(5992227761411768544188324023836347704864037608501559216143918932633604460944int * 5992227761411768544188324023836347704864037608501559216143918932633604460944int, m, 1640460303500672776254040534960067488653567326036726771955953717729941610342int, 11711548167465346346733849926302958724731992005773090166713086057198619405750int);
    lemma_fundamental_div_mod_converse(11711548167465346346733849926302958724731992005773090166713086057198619405750int * 3, m, 1int, 13246401630556763817955144033651601085499664860021446837450220276950632008667int);
    assert(mod_pow(3, 14903587516038546773120557676512837240164595658099157nat, 21888242871839275222246405745257275088696311157297823662689037894645226208583nat) == 13246401630556763817955144033651601085499664860021446837450220276950632008667nat);
    lemma_fundamental_div_mod_converse(13246401630556763817955144033651601085499664860021446837450220276950632008667int * 13246401630556763817955144033651601085499664860021446837450220276950632008667int, m, 8016502612174840902066219609432098521567075262188266255787338581001875707250int, 20214111573580210600656166462988327566417280348933709065423452385926017790139int);
    assert(mod_pow(3, 29807175032077093546241115353025674480329191316198314nat, 21888242871839275222246405745257275088696311157297823662689037894645226208583nat) == 20214111573580210600656166462988327566417280348933709065423452385926017790139nat);
    lemma_fundamental_div_mod_converse(20214111573580210600656166462988327566417280348933709065423452385926017790139int * 20214111573580210600656166462988327566417280348933709065423452385926017790139int, m, 18668026899265385327858006073528163657350251406897787118760283837384512896553int, 9088003377378764929891035784911844565156622535882566321824659936757565924922int);
    assert(mod_pow(3, 59614350064154187092482230706051348960658382632396628nat, 21888242871839275222246405745257275088696311157297823662689037894645226208583nat) == 9088003377378764929891035784911844565156622535882566321824659936757565924922nat);
    lemma_fundamental_div_mod_converse(9088003377378764929891035784911844565156622535882566321824659936757565924922int * 9088003377378764929891035784911844565156622535882566321824659936757565924922int, m, 3773341052127480589800217592092348291518287882092296541501586759192949083962int, 17582001013274338167742689510213945307416898623640715202914366167561148660238int);
    assert(mod_pow(3, 119228700128308374184964461412102697921316765264793256nat, 21888242871839275222246405745257275088696311157297823662689037894645226208583nat) == 17582001013274338167742689510213945307416898623640715202914366167561148660238nat);
    lemma_fundamental_div_mod_converse(17582001013274338167742689510213945307416898623640715202914366167561148660238int * 17582001013274338167742689510213945307416898623640715202914366167561148660238int, m, 14122959135677931430607220299476551882812272526051500454223729113229708369296int, 3367559622356402436803583562432662685041139630153705498167014675260673349076int);
    assert(mod_pow(3, 238457400256616748369928922824205395842633530529586512nat, 21888242871839275222246405745257275088696311157297823662689037894645226208583nat) == 3367559622356402436803583562432662685041139630153705498167014675260673349076nat);
    lemma_fundamental_div_mod_converse(3367559622356402436803583562432662685041139630153705498167014675260673349076int * 3367559622356402436803583562432662685041139630153705498167014675260673349076int, m, 518107272316293241423371636869426449742508201687898915464291530138197202940int, 7774630313554739726703425079819085765168594319945667054393107878746529219756int);
    assert(mod_pow(3, 476914800513233496739857845648410791685267061059173024nat, 21888242871839275222246405745257275088696311157297823662689037894645226208583nat) == 7774630313554739726703425079819085765168594319945667054393107878746529219756nat);
    lemma_fundamental_div_mod_converse(7774630313554739726703425079819085765168594319945667054393107878746529219756int * 7774630313554739726703425079819085765168594319945667054393107878746529219756int, m, 2761522561055403280856946379860572345871503226046403171992474084627657119665int, 14760203382304786044455527275819872481582725729396100539595279391927859614841int);
    lemma_fundamental_div_mod_converse(14760203382304786044455527275819872481582725729396100539595279391927859614841int * 3, m, 2int, 504124403235807688873770336945067267355554873592654293407762386493126427357int);
    assert(mod_pow(3, 953829601026466993479715691296821583370534122118346049nat, 21888242871839275222246405745257275088696311157297823662689037894645226208583nat) == 504124403235807688873770336945067267355554873592654293407762386493126427357nat);
    lemma_fundamental_div_mod_converse(504124403235807688873770336945067267355554873592654293407762386493126427357int * 504124403235807688873770336945067267355554873592654293407762386493126427357int, m, 11610864125819326451612720608298271351281820350850639813524964418175738033int, 564498530730310434401625721410351103841454283861255064352126475448173868210int);
    lemma_fundamental_div_mod_converse(564498530730310434401625721410351103841454283861255064352126475448173868210int * 3, m, 0int, 1693495592190931303204877164231053311524362851583765193056379426344521604630int);
    assert(mod_pow(3, 1907659202052933986959431382593643166741068244236692099nat, 21888242871839275222246405745257275088696311157297823662689037894645226208583nat) == 1693495592190931303204877164231053311524362851583765193056379426344521604630nat);
    lemma_fundamental_div_mod_converse(1693495592190931303204877164231053311524362851583765193056379426344521604630int * 1693495592190931303204877164231053311524362851583765193056379426344521604630int, m, 131025927369432572595469841446480436593777461627268997823368093634542406236int, 18005533595036333375790171249574988567963553627473687872397580653041981513312int);
    assert(mod_pow(3, 3815318404105867973918862765187286333482136488473384198nat, 21888242871839275222246405745257275088696311157297823662689037894645226208583nat) == 18005533595036333375790171249574988567963553627473687872397580653041981513312nat);
    lemma_fundamental_div_mod_converse(18005533595036333375790171249574988567963553627473687872397580653041981513312int * 18005533595036333375790171249574988567963553627473687872397580653041981513312int, m, 14811569934610263856164997947071533845794672276781934049812948439991156988631int, 5016561947324229273142176940630856534502388038662029015143851996041867589471int);
    assert(mod_pow(3, 7630636808211735947837725530374572666964272976946768396nat, 21888242871839275222246405745257275088696311157297823662689037894645226208583nat) == 5016561947324229273142176940630856534502388038662029015143851996041867589471nat);
    lemma_fundamental_div_mod_converse(5016561947324229273142176940630856534502388038662029015143851996041867589471int * 5016561947324229273142176940630856534502388038662029015143851996041867589471int, m, 1149744815912980872584184359813658011670316724065058767625993013582215250803int, 19311622948327599878531772027072534472029027659847701989896664964292053817692int);
    assert(mod_pow(3, 15261273616423471895675451060749145333928545953893536792nat, 21888242871839275222246405745257275088696311157297823662689037894645226208583nat) == 19311622948327599878531772027072534472029027659847701989896664964292053817692nat);
    lemma_fundamental_div_mod_converse(19311622948327599878531772027072534472029027659847701989896664964292053817692int * 19311622948327599878531772027072534472029027659847701989896664964292053817692int, m, 17038315185098045762837616310099411498551011087216218472787117090280276594382int, 20420964351197405084128752213200710966151583503070084452123619278818754226158int);
    lemma_fundamental_div_mod_converse(20420964351197405084128752213200710966151583503070084452123619278818754226158int * 3, m, 2int, 17486407309913664807893445149087582721062128194614606030992782047165810261308int);
    assert(mod_pow(3, 30522547232846943791350902121498290667857091907787073585nat, 21888242871839275222246405745257275088696311157297823662689037894645226208583nat) == 17486407309913664807893445149087582721062128194614606030992782047165810261308nat);
    lemma_fundamental_div_mod_converse(17486407309913664807893445149087582721062128194614606030992782047165810261308int * 17486407309913664807893445149087582721062128194614606030992782047165810261308int, m, 13969802985035488092664935507563414429273935173701423368969554178898833653495int, 643697112330035572150191739382892181031419244470372016196638011642424923279int);
    lemma_fundamental_div_mod_converse(643697112330035572150191739382892181031419244470372016196638011642424923279int * 3, m, 0int, 1931091336990106716450575218148676543094257733411116048589914034927274769837int);
    assert(mod_pow(3, 61045094465693887582701804242996581335714183815574147171nat, 21888242871839275222246405745257275088696311157297823662689037894645226208583nat) == 1931091336990106716450575218148676543094257733411116048589914034927274769837nat);
    lemma_fundamental_div_mod_converse(1931091336990106716450575218148676543094257733411116048589914034927274769837int * 1931091336990106716450575218148676543094257733411116048589914034927274769837int, m, 170370631102417012805257757249852169653709717350960175112076588629930426103int, 15080787829247728185634216307584605226096264980493655681630561300748979164520int);
    assert(mod_pow(3, 122090188931387775165403608485993162671428367631148294342nat, 21888242871839275222246405745257275088696311157297823662689037894645226208583nat) == 15080787829247728185634216307584605226096264980493655681630561300748979164520nat);
    lemma_fundamental_div_mod_converse(15080787829247728185634216307584605226096264980493655681630561300748979164520int * 15080787829247728185634216307584605226096264980493655681630561300748979164520int, m, 10390517086384805133120828002936968578578515921095667551976081727750848364327int, 20420589182478162795116927720317893163112778574260306266215227370619948411759int);
    lemma_fundamental_div_mod_converse(20420589182478162795116927720317893163112778574260306266215227370619948411759int * 3, m, 2int, 17485281803755937940857971670439129311945713408185271473267606322569392818111int);
    assert(mod_pow(3, 244180377862775550330807216971986325342856735262296588685nat, 21888242871839275222246405745257275088696311157297823662689037894645226208583nat) == 17485281803755937940857971670439129311945713408185271473267606322569392818111nat);
    lemma_fundamental_div_mod_converse(17485281803755937940857971670439129311945713408185271473267606322569392818111int * 17485281803755937940857971670439129311945713408185271473267606322569392818111int, m, 13968004720475193706855234205471480201178645639459408697292669011604602627948int, 10132792657742395112713805426514170574838437286608190863480332545180136330637int);
    lemma_fundamental_div_mod_converse(10132792657742395112713805426514170574838437286608190863480332545180136330637int * 3, m, 1int, 8510135101387910115895010534285236635819000702526748927751959740895182783328int);
    assert(mod_pow(3, 488360755725551100661614433943972650685713470524593177371nat, 21888242871839275222246405745257275088696311157297823662689037894645226208583nat) == 8510135101387910115895010534285236635819000702526748927751959740895182783328nat);
    lemma_fundamental_div_mod_converse(8510135101387910115895010534285236635819000702526748927751959740895182783328int * 8510135101387910115895010534285236635819000702526748927751959740895182783328int, m, 3308735190299400243052961684642162749162434910368184421397846613327342004090int, 17960264488534928039242302658061989213788875708480412867249938958913415651114int);
    lemma_fundamental_div_mod_converse(17960264488534928039242302658061989213788875708480412867249938958913415651114int * 3, m, 2int, 10104307721926233673234096483671417463974004810845591276371741087449794536176int);
    assert(mod_pow(3, 976721511451102201323228867887945301371426941049186354743nat, 21888242871839275222246405745257275088696311157297823662689037894645226208583nat) == 10104307721926233673234096483671417463974004810845591276371741087449794536176nat);
    lemma_fundamental_div_mod_converse(10104307721926233673234096483671417463974004810845591276371741087449794536176int * 10104307721926233673234096483671417463974004810845591276371741087449794536176int, m, 4664469191847873138305475300774626328758009977205807734616593988685469339159int, 21012551088673834176104618635881657344036006732469605373485578442326868901279int);
    assert(mod_pow(3, 1953443022902204402646457735775890602742853882098372709486nat, 21888242871839275222246405745257275088696311157297823662689037894645226208583nat) == 21012551088673834176104618635881657344036006732469605373485578442326868901279nat);
    lemma_fundamental_div_mod_converse(21012551088673834176104618635881657344036006732469605373485578442326868901279int * 21012551088673834176104618635881657344036006732469605373485578442326868901279int, m, 20171893460766696528196415423216259153391844756130998042469306461319507656679int, 11429887356088835131386989589292451495439776000408313323797070538110640759984int);
    lemma_fundamental_div_mod_converse(11429887356088835131386989589292451495439776000408313323797070538110640759984int * 3, m, 1int, 12401419196427230171914563022620079397623016843927116308702173719686696071369int);
    assert(mod_pow(3, 3906886045804408805292915471551781205485707764196745418973nat, 21888242871839275222246405745257275088696311157297823662689037894645226208583nat) == 12401419196427230171914563022620079397623016843927116308702173719686696071369nat);
    lemma_fundamental_div_mod_converse(12401419196427230171914563022620079397623016843927116308702173719686696071369int * 12401419196427230171914563022620079397623016843927116308702173719686696071369int, m, 7026383935248720741751923171328029826620899342717961112607615620106622861767int, 17096881195385811413047951709469789408974045777131051275880267051428023588000int);
    assert(mod_pow(3, 7813772091608817610585830943103562410971415528393490837946nat, 21888242871839275222246405745257275088696311157297823662689037894645226208583nat) == 17096881195385811413047951709469789408974045777131051275880267051428023588000nat);
    lemma_fundamental_div_mod_converse(17096881195385811413047951709469789408974045777131051275880267051428023588000int * 17096881195385811413047951709469789408974045777131051275880267051428023588000int, m, 13354354130692019278958909254889137858340381216370138779045906409030323279519int, 11110904527489327605874926811982911239224816690850452675361191775546838088423int);
    lemma_fundamental_div_mod_converse(11110904527489327605874926811982911239224816690850452675361191775546838088423int * 3, m, 1int, 11444470710628707595378374690691458628978138915253534363394537431995288056686int);
    assert(mod_pow(3, 15627544183217635221171661886207124821942831056786981675893nat, 21888242871839275222246405745257275088696311157297823662689037894645226208583nat) == 11444470710628707595378374690691458628978138915253534363394537431995288056686nat);
    lemma_fundamental_div_mod_converse(11444470710628707595378374690691458628978138915253534363394537431995288056686int * 11444470710628707595378374690691458628978138915253534363394537431995288056686int, m, 5983847612315552343571452812984082629598150052902243445228236005944761313654int, 11308282314792049360142799948256365609244487135229311952660947097929459410314int);
    lemma_fundamental_div_mod_converse(11308282314792049360142799948256365609244487135229311952660947097929459410314int * 3, m, 1int, 12036604072536872858181994099511821739037150248390112195293803399143152022359int);
    assert(mod_pow(3, 31255088366435270442343323772414249643885662113573963351787nat, 21888242871839275222246405745257275088696311157297823662689037894645226208583nat) == 12036604072536872858181994099511821739037150248390112195293803399143152022359nat);
    lemma_fundamental_div_mod_converse(12036604072536872858181994099511821739037150248390112195293803399143152022359int * 12036604072536872858181994099511821739037150248390112195293803399143152022359int, m, 6619071181150364292736507550876527557109141782654579279392112076949564518858int, 17399203116493295900555100829131838402099616438371199822276230319783690966667int);
    assert(mod_pow(3, 62510176732870540884686647544828499287771324227147926703574nat, 21888242871839275222246405745257275088696311157297823662689037894645226208583nat) == 17399203116493295900555100829131838402099616438371199822276230319783690966667nat);
    lemma_fundamental_div_mod_converse(17399203116493295900555100829131838402099616438371199822276230319783690966667int * 17399203116493295900555100829131838402099616438371199822276230319783690966667int, m, 13830816427867576134818566095614536054370987890478356565481412772584300100031int, 4842739167596825748056980373122839371636253221653492277511549773787134322816int);
    assert(mod_pow(3, 125020353465741081769373295089656998575542648454295853407148nat, 21888242871839275222246405745257275088696311157297823662689037894645226208583nat) == 4842739167596825748056980373122839371636253221653492277511549773787134322816nat);
    lemma_fundamental_div_mod_converse(4842739167596825748056980373122839371636253221653492277511549773787134322816int * 4842739167596825748056980373122839371636253221653492277511549773787134322816int, m, 1071448392760168064628931752406939702011217288456189532776524495893539771759int, 10532969284247149019470050726780804391236766623977118488371428409824151362359int);
    assert(mod_pow(3, 250040706931482163538746590179313997151085296908591706814296nat, 21888242871839275222246405745257275088696311157297823662689037894645226208583nat) == 10532969284247149019470050726780804391236766623977118488371428409824151362359nat);
    lemma_fundamental_div_mod_converse(10532969284247149019470050726780804391236766623977118488371428409824151362359int * 10532969284247149019470050726780804391236766623977118488371428409824151362359int, m, 5068631712124788297296296726552165235201998364809522671524880788641442543969int, 7345902662765130886235175361342752501884986012247714153022076381243579358954int);
    assert(mod_pow(3, 500081413862964327077493180358627994302170593817183413628592nat, 21888242871839275222246405745257275088696311157297823662689037894645226208583nat) == 7345902662765130886235175361342752501884986012247714153022076381243579358954nat);
    lemma_fundamental_div_mod_converse(7345902662765130886235175361342752501884986012247714153022076381243579358954int * 7345902662765130886235175361342752501884986012247714153022076381243579358954int, m, 2465354859537218492374150040743230142438414161146621065022883770522230090218int, 6079587085471793010658678940877760550694191793109365196956775135123404033022int);
    assert(mod_pow(3, 1000162827725928654154986360717255988604341187634366827257184nat, 21888242871839275222246405745257275088696311157297823662689037894645226208583nat) == 6079587085471793010658678940877760550694191793109365196956775135123404033022nat);
    lemma_fundamental_div_mod_converse(6079587085471793010658678940877760550694191793109365196956775135123404033022int * 6079587085471793010658678940877760550694191793109365196956775135123404033022int, m, 1688640762360543722371676298227362886064205081172664239731996086616149426465int, 10627230282180501713937525457346356589491577144309825314882742099492956103389int);
    lemma_fundamental_div_mod_converse(10627230282180501713937525457346356589491577144309825314882742099492956103389int * 3, m, 1int, 9993447974702229919566170626781794679778420275631652281959188403833642101584int);
    assert(mod_pow(3, 2000325655451857308309972721434511977208682375268733654514369nat, 21888242871839275222246405745257275088696311157297823662689037894645226208583nat) == 9993447974702229919566170626781794679778420275631652281959188403833642101584nat);
    lemma_fundamental_div_mod_converse(9993447974702229919566170626781794679778420275631652281959188403833642101584int * 9993447974702229919566170626781794679778420275631652281959188403833642101584int, m, 4562677918361752926222944794823764953458678107003924696509191667091893730962int, 388703569824327959500556864133316410929069386506849821181818727230678062210int);
    assert(mod_pow(3, 4000651310903714616619945442869023954417364750537467309028738nat, 21888242871839275222246405745257275088696311157297823662689037894645226208583nat) == 388703569824327959500556864133316410929069386506849821181818727230678062210nat);
    lemma_fundamental_div_mod_converse(388703569824327959500556864133316410929069386506849821181818727230678062210int * 388703569824327959500556864133316410929069386506849821181818727230678062210int, m, 6902813810996424997265136676408146511289330698055021752912179037139154263int, 5106001148082465979637724652311096695813118885468443445493551550865978444771int);
    lemma_fundamental_div_mod_converse(5106001148082465979637724652311096695813118885468443445493551550865978444771int * 3, m, 0int, 15318003444247397938913173956933290087439356656405330336480654652597935334313int);
    assert(mod_pow(3, 8001302621807429233239890885738047908834729501074934618057477nat, 21888242871839275222246405745257275088696311157297823662689037894645226208583nat) == 15318003444247397938913173956933290087439356656405330336480654652597935334313nat);
    lemma_fundamental_div_mod_converse(15318003444247397938913173956933290087439356656405330336480654652597935334313int * 15318003444247397938913173956933290087439356656405330336480654652597935334313int, m, 10719966462902199028740663279675560254670961399964731839562618893398502690319int, 9736152834479629915873012474104570472277329826900188488547125382345326373992int);
    lemma_fundamental_div_mod_converse(9736152834479629915873012474104570472277329826900188488547125382345326373992int * 3, m, 1int, 7320215631599614525372631677056436328135678323402741802952338252390752913393int);
    assert(mod_pow(3, 16002605243614858466479781771476095817669459002149869236114955nat, 21888242871839275222246405745257275088696311157297823662689037894645226208583nat) == 7320215631599614525372631677056436328135678323402741802952338252390752913393nat);
    lemma_fundamental_div_mod_converse(7320215631599614525372631677056436328135678323402741802952338252390752913393int * 7320215631599614525372631677056436328135678323402741802952338252390752913393int, m, 2448143380301067261681019261933168919080481465410118902819444225088182712762int, 3986968126380565381777424109792360090469255789460724036263873576128370736203int);
    lemma_fundamental_div_mod_converse(3986968126380565381777424109792360090469255789460724036263873576128370736203int * 3, m, 0int, 11960904379141696145332272329377080271407767368382172108791620728385112208609int);
    assert(mod_pow(3, 32005210487229716932959563542952191635338918004299738472229911nat, 21888242871839275222246405745257275088696311157297823662689037894645226208583nat) == 11960904379141696145332272329377080271407767368382172108791620728385112208609nat);
    lemma_fundamental_div_mod_converse(11960904379141696145332272329377080271407767368382172108791620728385112208609int * 11960904379141696145332272329377080271407767368382172108791620728385112208609int, m, 6536076669316917162973121312980524450843334988031196033935088260027478465874int, 20367199913677588627898027186078389151402795347291694782624116634143562318339int);
    assert(mod_pow(3, 64010420974459433865919127085904383270677836008599476944459822nat, 21888242871839275222246405745257275088696311157297823662689037894645226208583nat) == 20367199913677588627898027186078389151402795347291694782624116634143562318339nat);
    lemma_fundamental_div_mod_converse(20367199913677588627898027186078389151402795347291694782624116634143562318339int * 20367199913677588627898027186078389151402795347291694782624116634143562318339int, m, 18951856243216598320397016070369469513964370038260516736428588735728410569637int, 16471862390458700359502481687041667213708105154848676351113913977203567124550int);
    lemma_fundamental_div_mod_converse(16471862390458700359502481687041667213708105154848676351113913977203567124550int * 3, m, 2int, 5639101427697550634014633570610451463731693149950381727963666142320248956484int);
    assert(mod_pow(3, 128020841948918867731838254171808766541355672017198953888919645nat, 21888242871839275222246405745257275088696311157297823662689037894645226208583nat) == 5639101427697550634014633570610451463731693149950381727963666142320248956484nat);
    lemma_fundamental_div_mod_converse(5639101427697550634014633570610451463731693149950381727963666142320248956484int * 5639101427697550634014633570610451463731693149950381727963666142320248956484int, m, 1452810309993989749394801994843812275078455281401261249176351387724637560640int, 20040565229312952440853024313112090330668258258164634763882330955509974669136int);
    assert(mod_pow(3, 256041683897837735463676508343617533082711344034397907777839290nat, 21888242871839275222246405745257275088696311157297823662689037894645226208583nat) == 20040565229312952440853024313112090330668258258164634763882330955509974669136nat);
    lemma_fundamental_div_mod_converse(20040565229312952440853024313112090330668258258164634763882330955509974669136int * 20040565229312952440853024313112090330668258258164634763882330955509974669136int, m, 18348857743490430789703289253360508012469474076688407143625414734951176187813int, 4140796702046643070802067236200220069588980304689297412118719819359150387517int);
    assert(mod_pow(3, 512083367795675470927353016687235066165422688068795815555678580nat, 21888242871839275222246405745257275088696311157297823662689037894645226208583nat) == 4140796702046643070802067236200220069588980304689297412118719819359150387517nat);
    lemma_fundamental_div_mod_converse(4140796702046643070802067236200220069588980304689297412118719819359150387517int * 4140796702046643070802067236200220069588980304689297412118719819359150387517int, m, 783351931357638300632302387537333362476905876622454588112411516408491685307int, 3070488965657011069181566099803303999376081161199637004822393065295691035308int);
    assert(mod_pow(3, 1024166735591350941854706033374470132330845376137591631111357160nat, 21888242871839275222246405745257275088696311157297823662689037894645226208583nat) == 3070488965657011069181566099803303999376081161199637004822393065295691035308nat);
    lemma_fundamental_div_mod_converse(3070488965657011069181566099803303999376081161199637004822393065295691035308int * 3070488965657011069181566099803303999376081161199637004822393065295691035308int, m, 430729069639075710591882955101424702535595278631757861629189188480945045047int, 17738313828269184817741666213840388266454395669900202580477106827060949616463int);
    lemma_fundamental_div_mod_converse(17738313828269184817741666213840388266454395669900202580477106827060949616463int * 3, m, 2int, 9438455741129004008732187151006614621970564695104960416053244691892396432223int);
    assert(mod_pow(3, 2048333471182701883709412066748940264661690752275183262222714321nat, 21888242871839275222246405745257275088696311157297823662689037894645226208583nat) == 9438455741129004008732187151006614621970564695104960416053244691892396432223nat);
    lemma_fundamental_div_mod_converse(9438455741129004008732187151006614621970564695104960416053244691892396432223int * 9438455741129004008732187151006614621970564695104960416053244691892396432223int, m, 4069967941184730884938275614215745456871944331265137381608577387674926042213int, 1083492403550056387664504672485371965281358797278733558763845096315631807550int);
    lemma_fundamental_div_mod_converse(1083492403550056387664504672485371965281358797278733558763845096315631807550int * 3, m, 0int, 3250477210650169162993514017456115895844076391836200676291535288946895422650int);
    assert(mod_pow(3, 4096666942365403767418824133497880529323381504550366524445428643nat, 21888242871839275222246405745257275088696311157297823662689037894645226208583nat) == 3250477210650169162993514017456115895844076391836200676291535288946895422650nat);
    lemma_fundamental_div_mod_converse(3250477210650169162993514017456115895844076391836200676291535288946895422650int * 3250477210650169162993514017456115895844076391836200676291535288946895422650int, m, 482706727937009302292474390206403303538109270428633474589790879949749885431int, 20348979877831713894335580263965593150957319601369431317983933385739374168227int);
    assert(mod_pow(3, 8193333884730807534837648266995761058646763009100733048890857286nat, 21888242871839275222246405745257275088696311157297823662689037894645226208583nat) == 20348979877831713894335580263965593150957319601369431317983933385739374168227nat);
    lemma_fundamental_div_mod_converse(20348979877831713894335580263965593150957319601369431317983933385739374168227int * 20348979877831713894335580263965593150957319601369431317983933385739374168227int, m, 18917963606898000945412438482029776599112471845966409539319332797336363116915int, 18616533939000395492986840069186860162643675187715753948044805136142290842084int);
    assert(mod_pow(3, 16386667769461615069675296533991522117293526018201466097781714572nat, 21888242871839275222246405745257275088696311157297823662689037894645226208583nat) == 18616533939000395492986840069186860162643675187715753948044805136142290842084nat);
    lemma_fundamental_div_mod_converse(18616533939000395492986840069186860162643675187715753948044805136142290842084int * 18616533939000395492986840069186860162643675187715753948044805136142290842084int, m, 15833858292382460114235951253625194425336433842743838536347027780227980124119int, 21005777840701110913839398305648461238916769162226170574214418345389702349679int);
    assert(mod_pow(3, 32773335538923230139350593067983044234587052036402932195563429144nat, 21888242871839275222246405745257275088696311157297823662689037894645226208583nat) == 21005777840701110913839398305648461238916769162226170574214418345389702349679nat);
    lemma_fundamental_div_mod_converse(21005777840701110913839398305648461238916769162226170574214418345389702349679int * 21005777840701110913839398305648461238916769162226170574214418345389702349679int, m, 20158891020922415278022861797591175686119312162519907998117990502817062181766int, 5579192713234313115638463496884575384947662293776130666888190667903416105463int);
    assert(mod_pow(3, 65546671077846460278701186135966088469174104072805864391126858288nat, 21888242871839275222246405745257275088696311157297823662689037894645226208583nat) == 5579192713234313115638463496884575384947662293776130666888190667903416105463nat);
    lemma_fundamental_div_mod_converse(5579192713234313115638463496884575384947662293776130666888190667903416105463int * 5579192713234313115638463496884575384947662293776130666888190667903416105463int, m, 1422105534631762469585942959076625861784826856017670643630337842945215341487int, 9517708517234977392761468222993472352843668993428226043988169905791703061448int);
    assert(mod_pow(3, 131093342155692920557402372271932176938348208145611728782253716576nat, 21888242871839275222246405745257275088696311157297823662689037894645226208583nat) == 9517708517234977392761468222993472352843668993428226043988169905791703061448nat);
    lemma_fundamental_div_mod_converse(9517708517234977392761468222993472352843668993428226043988169905791703061448int * 9517708517234977392761468222993472352843668993428226043988169905791703061448int, m, 4138604270313234132382481065644416093943460377912517932739762375271416927755int, 7119893710129108747410377354147915252270980108196864082366254550530991935539int);
    assert(mod_pow(3, 262186684311385841114804744543864353876696416291223457564507433152nat, 21888242871839275222246405745257275088696311157297823662689037894645226208583nat) == 7119893710129108747410377354147915252270980108196864082366254550530991935539nat);
    lemma_fundamental_div_mod_converse(7119893710129108747410377354147915252270980108196864082366254550530991935539int * 7119893710129108747410377354147915252270980108196864082366254550530991935539int, m, 2315987022821092612953259934444873450656796224999579266656192098748618828881int, 2557938241733882177498335143176562162483632934806229948279858126720240734898int);
    assert(mod_pow(3, 524373368622771682229609489087728707753392832582446915129014866304nat, 21888242871839275222246405745257275088696311157297823662689037894645226208583nat) == 2557938241733882177498335143176562162483632934806229948279858126720240734898nat);
    lemma_fundamental_div_mod_converse(2557938241733882177498335143176562162483632934806229948279858126720240734898int * 2557938241733882177498335143176562162483632934806229948279858126720240734898int, m, 298929799291596149989774918469731556679631136346874227174307821037324706665int, 4173068890405422832070231622970943304185970158784888461684408381480534764709int);
    assert(mod_pow(3, 1048746737245543364459218978175457415506785665164893830258029732608nat, 21888242871839275222246405745257275088696311157297823662689037894645226208583nat) == 4173068890405422832070231622970943304185970158784888461684408381480534764709nat);
    lemma_fundamental_div_mod_converse(4173068890405422832070231622970943304185970158784888461684408381480534764709int * 4173068890405422832070231622970943304185970158784888461684408381480534764709int, m, 795609956725877705678157136604139004478337312229279936993722173344725932946int, 19441504595273434603366727162940102457034871396187905509945639053948924179163int);
    lemma_fundamental_div_mod_converse(19441504595273434603366727162940102457034871396187905509945639053948924179163int * 3, m, 2int, 14548028042141753365607369998305757193711991873968069204458841372556320120323int);
    assert(mod_pow(3, 2097493474491086728918437956350914831013571330329787660516059465217nat, 21888242871839275222246405745257275088696311157297823662689037894645226208583nat) == 14548028042141753365607369998305757193711991873968069204458841372556320120323nat);
    lemma_fundamental_div_mod_converse(14548028042141753365607369998305757193711991873968069204458841372556320120323int * 14548028042141753365607369998305757193711991873968069204458841372556320120323int, m, 9669351768169512207054984687505479364824106297505174162659244241279612147401int, 4538255494770706906497672336951066978053246151612108232889662849899030281546int);
    assert(mod_pow(3, 4194986948982173457836875912701829662027142660659575321032118930434nat, 21888242871839275222246405745257275088696311157297823662689037894645226208583nat) == 4538255494770706906497672336951066978053246151612108232889662849899030281546nat);
    lemma_fundamental_div_mod_converse(4538255494770706906497672336951066978053246151612108232889662849899030281546int * 4538255494770706906497672336951066978053246151612108232889662849899030281546int, m, 940950950535841069698338232841426611117437245663976180575978035490275586316int, 2074564590246854720181836883775141837334765585868424713961425616199991599888int);
    assert(mod_pow(3, 8389973897964346915673751825403659324054285321319150642064237860868nat, 21888242871839275222246405745257275088696311157297823662689037894645226208583nat) == 2074564590246854720181836883775141837334765585868424713961425616199991599888nat);
    lemma_fundamental_div_mod_converse(2074564590246854720181836883775141837334765585868424713961425616199991599888int * 2074564590246854720181836883775141837334765585868424713961425616199991599888int, m, 196626940970362558949220809444923978407156104078415432430197243516048723953int, 18480574012160155822238255660250464655089262086482481489608328790472515323945int);
    lemma_fundamental_div_mod_converse(18480574012160155822238255660250464655089262086482481489608328790472515323945int * 3, m, 2int, 11665236292801917022221955490236843787875163944851797143446910582127093554669int);
    assert(mod_pow(3, 16779947795928693831347503650807318648108570642638301284128475721737nat, 21888242871839275222246405745257275088696311157297823662689037894645226208583nat) == 11665236292801917022221955490236843787875163944851797143446910582127093554669nat);
    lemma_fundamental_div_mod_converse(11665236292801917022221955490236843787875163944851797143446910582127093554669int * 11665236292801917022221955490236843787875163944851797143446910582127093554669int, m, 6216932924386376825690054662577565117424437027209123543862359290399369170337int, 17199705271366832719401871491390206534515498901181003220050994404921273297090int);
    assert(mod_pow(3, 33559895591857387662695007301614637296217141285276602568256951443474nat, 21888242871839275222246405745257275088696311157297823662689037894645226208583nat) == 17199705271366832719401871491390206534515498901181003220050994404921273297090nat);
    lemma_fundamental_div_mod_converse(17199705271366832719401871491390206534515498901181003220050994404921273297090int * 17199705271366832719401871491390206534515498901181003220050994404921273297090int, m, 13515468699522217338225275532744379486440843346025858657940148091020856117147int, 16372966354809963630259036915138249879801914572170059204265109787557697595399int);
    lemma_fundamental_div_mod_converse(16372966354809963630259036915138249879801914572170059204265109787557697595399int * 3, m, 2int, 5342413320751340446284299254900199462013121401914530287417253573382640369031int);
    assert(mod_pow(3, 67119791183714775325390014603229274592434282570553205136513902886949nat, 21888242871839275222246405745257275088696311157297823662689037894645226208583nat) == 5342413320751340446284299254900199462013121401914530287417253573382640369031nat);
    lemma_fundamental_div_mod_converse(5342413320751340446284299254900199462013121401914530287417253573382640369031int * 5342413320751340446284299254900199462013121401914530287417253573382640369031int, m, 1303959402171190573850927634818924882702859486639202634626882215759310908562int, 7831022927435358698648471817127527695586954232096098949582849098007611291315int);
    assert(mod_pow(3, 134239582367429550650780029206458549184868565141106410273027805773898nat, 21888242871839275222246405745257275088696311157297823662689037894645226208583nat) == 7831022927435358698648471817127527695586954232096098949582849098007611291315nat);
    lemma_fundamental_div_mod_converse(7831022927435358698648471817127527695586954232096098949582849098007611291315int * 7831022927435358698648471817127527695586954232096098949582849098007611291315int, m, 2801728784219448168892247535935980673747045505917684699390806995598987618319int, 14415281236229301543705377756028861392232954451117679613536371268352308597248int);
    lemma_fundamental_div_mod_converse(14415281236229301543705377756028861392232954451117679613536371268352308597248int * 3, m, 1int, 21357600836848629408869727522829309088002552196055215177920075910411699583161int);
    assert(mod_pow(3, 268479164734859101301560058412917098369737130282212820546055611547797nat, 21888242871839275222246405745257275088696311157297823662689037894645226208583nat) == 21357600836848629408869727522829309088002552196055215177920075910411699583161nat);
    lemma_fundamental_div_mod_converse(21357600836848629408869727522829309088002552196055215177920075910411699583161int * 21357600836848629408869727522829309088002552196055215177920075910411699583161int, m, 20839823286729964205395563204065174645903999436379694671922820516352467035377int, 3809396536951565868741651843689543766164386443353823914151816042149312711130int);
    lemma_fundamental_div_mod_converse(3809396536951565868741651843689543766164386443353823914151816042149312711130int * 3, m, 0int, 11428189610854697606224955531068631298493159330061471742455448126447938133390int);
    assert(mod_pow(3, 536958329469718202603120116825834196739474260564425641092111223095595nat, 21888242871839275222246405745257275088696311157297823662689037894645226208583nat) == 11428189610854697606224955531068631298493159330061471742455448126447938133390nat);
    lemma_fundamental_div_mod_converse(11428189610854697606224955531068631298493159330061471742455448126447938133390int * 11428189610854697606224955531068631298493159330061471742455448126447938133390int, m, 5966834274745627138147891432341652443830996938946523444923248973262067603163int, 5442292700090344255068429132526329471962146432887605070382945662620724344071int);
    lemma_fundamental_div_mod_converse(5442292700090344255068429132526329471962146432887605070382945662620724344071int * 3, m, 0int, 16326878100271032765205287397578988415886439298662815211148836987862173032213int);
    assert(mod_pow(3, 1073916658939436405206240233651668393478948521128851282184222446191191nat, 21888242871839275222246405745257275088696311157297823662689037894645226208583nat) == 16326878100271032765205287397578988415886439298662815211148836987862173032213nat);
    lemma_fundamental_div_mod_converse(16326878100271032765205287397578988415886439298662815211148836987862173032213int * 16326878100271032765205287397578988415886439298662815211148836987862173032213int, m, 12178544895628259810503201830001357396512257931039207552563570299879312486752int, 12901371562684508950096919305571909028316138711415223863201943345676359484953int);
    lemma_fundamental_div_mod_converse(12901371562684508950096919305571909028316138711415223863201943345676359484953int * 3, m, 1int, 16815871816214251628044352171458451996252104976947847926916792142383852246276int);
    assert(mod_pow(3, 2147833317878872810412480467303336786957897042257702564368444892382383nat, 21888242871839275222246405745257275088696311157297823662689037894645226208583nat) == 16815871816214251628044352171458451996252104976947847926916792142383852246276nat);
    lemma_fundamental_div_mod_converse(16815871816214251628044352171458451996252104976947847926916792142383852246276int * 16815871816214251628044352171458451996252104976947847926916792142383852246276int, m, 12918969631096169070593979785530412880754285811691314715690728505112625302658int, 6721171765339641510872927505174838923703107513270459139510195663596743554562int);
    assert(mod_pow(3, 4295666635757745620824960934606673573915794084515405128736889784764766nat, 21888242871839275222246405745257275088696311157297823662689037894645226208583nat) == 6721171765339641510872927505174838923703107513270459139510195663596743554562nat);
    lemma_fundamental_div_mod_converse(6721171765339641510872927505174838923703107513270459139510195663596743554562int * 6721171765339641510872927505174838923703107513270459139510195663596743554562int, m, 2063854561725392465622607033217023251943592383747436159673983808241611254286int, 14240246919219164800906303451784487611161407698145853426584947821351782275106int);
    lemma_fundamental_div_mod_converse(14240246919219164800906303451784487611161407698145853426584947821351782275106int * 3, m, 1int, 20832497885818219180472504610096187744787911937139736617065805569410120616735int);
    assert(mod_pow(3, 8591333271515491241649921869213347147831588169030810257473779569529533nat, 21888242871839275222246405745257275088696311157297823662689037894645226208583nat) == 20832497885818219180472504610096187744787911937139736617065805569410120616735nat);
    lemma_fundamental_div_mod_converse(20832497885818219180472504610096187744787911937139736617065805569410120616735int * 20832497885818219180472504610096187744787911937139736617065805569410120616735int, m, 19827675099538587146244320423042732266838715625782394248076677639468219215120int, 21772186859289505250890330254023655350065317443856102706163072926511094685265int);
    assert(mod_pow(3, 17182666543030982483299843738426694295663176338061620514947559139059066nat, 21888242871839275222246405745257275088696311157297823662689037894645226208583nat) == 21772186859289505250890330254023655350065317443856102706163072926511094685265nat);
    lemma_fundamental_div_mod_converse(21772186859289505250890330254023655350065317443856102706163072926511094685265int * 21772186859289505250890330254023655350065317443856102706163072926511094685265int, m, 21656746199837186567152530948207975702170533867285890628401841852608685989553int, 18316584543756833496720440652429992008030672531615183452066757731255671186826int);
    assert(mod_pow(3, 34365333086061964966599687476853388591326352676123241029895118278118132nat, 21888242871839275222246405745257275088696311157297823662689037894645226208583nat) == 18316584543756833496720440652429992008030672531615183452066757731255671186826nat);
    lemma_fundamental_div_mod_converse(18316584543756833496720440652429992008030672531615183452066757731255671186826int * 18316584543756833496720440652429992008030672531615183452066757731255671186826int, m, 15327738791688571853473018100877813345846928644935572791343808145749959161401int, 7544022200575280259988507297086709014096282563844351263580715053162007449493int);
    lemma_fundamental_div_mod_converse(7544022200575280259988507297086709014096282563844351263580715053162007449493int * 3, m, 1int, 743823729886565557719116146002851953592536534235230128053107264840796139896int);
    assert(mod_pow(3, 68730666172123929933199374953706777182652705352246482059790236556236265nat, 21888242871839275222246405745257275088696311157297823662689037894645226208583nat) == 743823729886565557719116146002851953592536534235230128053107264840796139896nat);
    lemma_fundamental_div_mod_converse(743823729886565557719116146002851953592536534235230128053107264840796139896int * 743823729886565557719116146002851953592536534235230128053107264840796139896int, m, 25277211349577404042868725314630871845154685067890368489652585824011152895int, 17882579900812274903829438308437016596784930184411424294842225754466428593031int);
    lemma_fundamental_div_mod_converse(17882579900812274903829438308437016596784930184411424294842225754466428593031int * 3, m, 2int, 9871253958758274266995503434796499612962168238638625559148601474108833361927int);
    assert(mod_pow(3, 137461332344247859866398749907413554365305410704492964119580473112472531nat, 21888242871839275222246405745257275088696311157297823662689037894645226208583nat) == 9871253958758274266995503434796499612962168238638625559148601474108833361927nat);
    lemma_fundamental_div_mod_converse(9871253958758274266995503434796499612962168238638625559148601474108833361927int * 9871253958758274266995503434796499612962168238638625559148601474108833361927int, m, 4451780587818050456106873616764482811486489722284418907242854124505149797183int, 10964086994641973754099130966136174545566121775810379077596974167474869331640int);
    lemma_fundamental_div_mod_converse(10964086994641973754099130966136174545566121775810379077596974167474869331640int * 3, m, 1int, 11004018112086646040050987153151248548002054170133313570101884607779381786337int);
    assert(mod_pow(3, 274922664688495719732797499814827108730610821408985928239160946224945063nat, 21888242871839275222246405745257275088696311157297823662689037894645226208583nat) == 11004018112086646040050987153151248548002054170133313570101884607779381786337nat);
    lemma_fundamental_div_mod_converse(11004018112086646040050987153151248548002054170133313570101884607779381786337int * 11004018112086646040050987153151248548002054170133313570101884607779381786337int, m, 5532121300011683400082024197207988438064712141392995365116507684552347643792int, 16611924541079731291568944831574294711217211999696860887445116148187542810833int);
    lemma_fundamental_div_mod_converse(16611924541079731291568944831574294711217211999696860887445116148187542810833int * 3, m, 2int, 6059287879560643430214023004208333956259013684494935336957272655272176015333int);
    assert(mod_pow(3, 549845329376991439465594999629654217461221642817971856478321892449890127nat, 21888242871839275222246405745257275088696311157297823662689037894645226208583nat) == 6059287879560643430214023004208333956259013684494935336957272655272176015333nat);
    lemma_fundamental_div_mod_converse(6059287879560643430214023004208333956259013684494935336957272655272176015333int * 6059287879560643430214023004208333956259013684494935336957272655272176015333int, m, 1677383142281687834349921902387088823736481522384529339551348576668240638193int, 11848587521383375349467640200143530474858540709921295340359934800195796890370int);
    lemma_fundamental_div_mod_converse(11848587521383375349467640200143530474858540709921295340359934800195796890370int * 3, m, 1int, 13657519692310850826156514855173316335879310972466062358390766505942164462527int);
    assert(mod_pow(3, 1099690658753982878931189999259308434922443285635943712956643784899780255nat, 21888242871839275222246405745257275088696311157297823662689037894645226208583nat) == 13657519692310850826156514855173316335879310972466062358390766505942164462527nat);
    lemma_fundamental_div_mod_converse(13657519692310850826156514855173316335879310972466062358390766505942164462527int * 13657519692310850826156514855173316335879310972466062358390766505942164462527int, m, 8521828144818309486717806924057417577821096056068123533968184300799755457939int, 19194402810995174889390447244661827544071180289147433108529221433248889935292int);
    lemma_fundamental_div_mod_converse(19194402810995174889390447244661827544071180289147433108529221433248889935292int * 3, m, 2int, 13806722689306974223678530243470932454820918552846652000209588510456217388710int);
    assert(mod_pow(3, 2199381317507965757862379998518616869844886571271887425913287569799560511nat, 21888242871839275222246405745257275088696311157297823662689037894645226208583nat) == 13806722689306974223678530243470932454820918552846652000209588510456217388710nat);
    lemma_fundamental_div_mod_converse(13806722689306974223678530243470932454820918552846652000209588510456217388710int * 13806722689306974223678530243470932454820918552846652000209588510456217388710int, m, 8709040398335349998101245730346547669393125766461737167834608609289191647330int, 7994416764035822082345007849597982641552406289150360597724305733763280430710int);
    assert(mod_pow(3, 4398762635015931515724759997037233739689773142543774851826575139599121022nat, 21888242871839275222246405745257275088696311157297823662689037894645226208583nat) == 7994416764035822082345007849597982641552406289150360597724305733763280430710nat);
    lemma_fundamental_div_mod_converse(7994416764035822082345007849597982641552406289150360597724305733763280430710int * 7994416764035822082345007849597982641552406289150360597724305733763280430710int, m, 2919864320370936696868912096974840265754310862942568415362820292844275842307int, 13222121688505418798074975045224203792973410526782308556344288340878713183119int);
    lemma_fundamental_div_mod_converse(13222121688505418798074975045224203792973410526782308556344288340878713183119int * 3, m, 1int, 17778122193676981171978519390415336290223920423049102006343827127990913340774int);
    assert(mod_pow(3, 8797525270031863031449519994074467479379546285087549703653150279198242045nat, 21888242871839275222246405745257275088696311157297823662689037894645226208583nat) == 17778122193676981171978519390415336290223920423049102006343827127990913340774nat);
    lemma_fundamental_div_mod_converse(17778122193676981171978519390415336290223920423049102006343827127990913340774int * 17778122193676981171978519390415336290223920423049102006343827127990913340774int, m, 14439789917533535182090399213703004103060948211862357050579484631833765586039int, 17202676397194512122766387415790429131022123620776405006297443853962404146339int);
    assert(mod_pow(3, 17595050540063726062899039988148934958759092570175099407306300558396484090nat, 21888242871839275222246405745257275088696311157297823662689037894645226208583nat) == 17202676397194512122766387415790429131022123620776405006297443853962404146339nat);
    lemma_fundamental_div_mod_converse(17202676397194512122766387415790429131022123620776405006297443853962404146339int * 17202676397194512122766387415790429131022123620776405006297443853962404146339int, m, 13520138503549321410860577111331923698379064563133780441691534142428930683089int, 12920011733355312824036365050033000229996221358278778460976515478067542350034int);
    lemma_fundamental_div_mod_converse(12920011733355312824036365050033000229996221358278778460976515478067542350034int * 3, m, 1int, 16871792328226663249862689404841725601292352917538511720240508539557400841519int);
    assert(mod_pow(3, 35190101080127452125798079976297869917518185140350198814612601116792968181nat, 21888242871839275222246405745257275088696311157297823662689037894645226208583nat) == 16871792328226663249862689404841725601292352917538511720240508539557400841519nat);
    lemma_fundamental_div_mod_converse(16871792328226663249862689404841725601292352917538511720240508539557400841519int * 16871792328226663249862689404841725601292352917538511720240508539557400841519int, m, 13005035535905868286748019175255792748526739790526876252319187841410465840272int, 4896153894909549175696450898459562220401524575804930873880135265551520772785int);
    assert(mod_pow(3, 70380202160254904251596159952595739835036370280700397629225202233585936362nat, 21888242871839275222246405745257275088696311157297823662689037894645226208583nat) == 4896153894909549175696450898459562220401524575804930873880135265551520772785nat);
}

#[verifier::rlimit(100)]
pub proof fn lemma_pow_base_modulus_by_983()
    ensures
        mod_pow(3, 22266778099531307448877320188461114027157997108136138008839306098316608554nat, 21888242871839275222246405745257275088696311157297823662689037894645226208583nat) == 16688597666022887646690163467638290937986941906618104641626128998084292531986nat,
{
    let m = 21888242871839275222246405745257275088696311157297823662689037894645226208583int;
    lemma_fundamental_div_mod_converse(1, m, 0, 1);
    assert(mod_pow(3, 0, 21888242871839275222246405745257275088696311157297823662689037894645226208583nat) == 1);
    lemma_fundamental_div_mod_converse(1int * 1int, m, 0int, 1int);
    lemma_fundamental_div_mod_converse(1int * 3, m, 0int, 3int);
    assert(mod_pow(3, 1, 21888242871839275222246405745257275088696311157297823662689037894645226208583nat) == 3);
    lemma_fundamental_div_mod_converse(3int * 3int, m, 0int, 9int);
    lemma_fundamental_div_mod_converse(9int * 3, m, 0int, 27int);
    assert(mod_pow(3, 3, 21888242871839275222246405745257275088696311157297823662689037894645226208583nat) == 27);
    lemma_fundamental_div_mod_converse(27int * 27int, m, 0int, 729int);
    assert(mod_pow(3, 6, 21888242871839275222246405745257275088696311157297823662689037894645226208583nat) == 729);
    lemma_fundamental_div_mod_converse(729int * 729int, m, 0int, 531441int);
    assert(mod_pow(3, 12, 21888242871839275222246405745257275088696311157297823662689037894645226208583nat) == 531441);
    lemma_fundamental_div_mod_converse(531441int * 531441int, m, 0int, 282429536481int);
    lemma_fundamental_div_mod_converse(282429536481int * 3, m, 0int, 847288609443int);
    assert(mod_pow(3, 25, 21888242871839275222246405745257275088696311157297823662689037894645226208583nat) == 847288609443);
    lemma_fundamental_div_mod_converse(847288609443int * 847288609443int, m, 0int, 717897987691852588770249int);
    assert(mod_pow(3, 50, 21888242871839275222246405745257275088696311157297823662689037894645226208583nat) == 717897987691852588770249nat);
    lemma_fundamental_div_mod_converse(717897987691852588770249int * 717897987691852588770249int, m, 0int, 515377520732011331036461129765621272702107522001int);
    assert(mod_pow(3, 100, 21888242871839275222246405745257275088696311157297823662689037894645226208583nat) == 515377520732011331036461129765621272702107522001nat);
    lemma_fundamental_div_mod_converse(515377520732011331036461129765621272702107522001int * 515377520732011331036461129765621272702107522001int, m, 12135007384151670413int, 19396778307043791501035718122066639195909692712795637731743661869978491289222int);
    lemma_fundamental_div_mod_converse(19396778307043791501035718122066639195909692712795637731743661869978491289222int * 3, m, 2int, 14413849177452824058614342875685367410336455823791265869852909820645021450500int);
    assert(mod_pow(3, 201, 21888242871839275222246405745257275088696311157297823662689037894645226208583nat) == 14413849177452824058614342875685367410336455823791265869852909820645021450500nat);
    lemma_fundamental_div_mod_converse(14413849177452824058614342875685367410336455823791265869852909820645021450500int * 14413849177452824058614342875685367410336455823791265869852909820645021450500int, m, 9491810252967071599650365991753400187604782733778030240359317261228752390273int, 17767100434366106722413755434700802752327861392540724872011197899977431936841int);
    lemma_fundamental_div_mod_converse(17767100434366106722413755434700802752327861392540724872011197899977431936841int * 3, m, 2int, 9524815559419769722748454813587858079590961863026527290655517910641843393357int);
    assert(mod_pow(3, 403, 21888242871839275222246405745257275088696311157297823662689037894645226208583nat) == 9524815559419769722748454813587858079590961863026527290655517910641843393357nat);
    lemma_fundamental_div_mod_converse(9524815559419769722748454813587858079590961863026527290655517910641843393357int * 9524815559419769722748454813587858079590961863026527290655517910641843393357int, m, 4144787316741863995996263737447826917800159620830738147527861199890546145777int, 12058974652311817772657996587904721510396533498724486458888731473131305125458int);
    assert(mod_pow(3, 806, 21888242871839275222246405745257275088696311157297823662689037894645226208583nat) == 12058974652311817772657996587904721510396533498724486458888731473131305125458nat);
    lemma_fundamental_div_mod_converse(12058974652311817772657996587904721510396533498724486458888731473131305125458int * 12058974652311817772657996587904721510396533498724486458888731473131305125458int, m, 6643697738395907049016717814163734284661864516834766833328855084390682696020int, 709158390520863022165440725480164991268903146692069425211632675571815770104int);
    lemma_fundamental_div_mod_converse(709158390520863022165440725480164991268903146692069425211632675571815770104int * 3, m, 0int, 2127475171562589066496322176440494973806709440076208275634898026715447310312int);
    assert(mod_pow(3, 1613, 21888242871839275222246405745257275088696311157297823662689037894645226208583nat) == 2127475171562589066496322176440494973806709440076208275634898026715447310312nat);
    lemma_fundamental_div_mod_converse(2127475171562589066496322176440494973806709440076208275634898026715447310312int * 2127475171562589066496322176440494973806709440076208275634898026715447310312int, m, 206784556993310357497394571853739658709627634965521025269563214952854767450int, 2944745109290481844245075465148847604658628790750341275978857062675562513994int);
    assert(mod_pow(3, 3226, 21888242871839275222246405745257275088696311157297823662689037894645226208583nat) == 2944745109290481844245075465148847604658628790750341275978857062675562513994nat);
    lemma_fundamental_div_mod_converse(2944745109290481844245075465148847604658628790750341275978857062675562513994int * 2944745109290481844245075465148847604658628790750341275978857062675562513994int, m, 396172676329661964956447820571910156062341566048289145488396417751680578332int, 3378809505301750483548241297365110525966780875689531562366992028260343608480int);
    assert(mod_pow(3, 6452, 21888242871839275222246405745257275088696311157297823662689037894645226208583nat) == 3378809505301750483548241297365110525966780875689531562366992028260343608480nat);
    lemma_fundamental_div_mod_converse(3378809505301750483548241297365110525966780875689531562366992028260343608480int * 3378809505301750483548241297365110525966780875689531562366992028260343608480int, m, 521574698342066615134471705070246777272276387367059998148343766766163075914int, 7411355475175864670258252446483240004560724185288010905808264034108100540538int);
    lemma_fundamental_div_mod_converse(7411355475175864670258252446483240004560724185288010905808264034108100540538int * 3, m, 1int, 345823553688318788528351594192444924985861398566209054735754207679075413031int);
    assert(mod_pow(3, 12905, 21888242871839275222246405745257275088696311157297823662689037894645226208583nat) == 345823553688318788528351594192444924985861398566209054735754207679075413031nat);
    lemma_fundamental_div_mod_converse(345823553688318788528351594192444924985861398566209054735754207679075413031int * 345823553688318788528351594192444924985861398566209054735754207679075413031int, m, 5463843351239641826519640364636767811741641174163430814517384932339617374int, 94115637766765443118166110370192547812532033918788993804925759272309885919int);
    assert(mod_pow(3, 25810, 21888242871839275222246405745257275088696311157297823662689037894645226208583nat) == 94115637766765443118166110370192547812532033918788993804925759272309885919nat);
    lemma_fundamental_div_mod_converse(94115637766765443118166110370192547812532033918788993804925759272309885919int * 94115637766765443118166110370192547812532033918788993804925759272309885919int, m, 404680874755876934372699548814672376427394185382224356031633737401924597int, 19329093426254076692669957718193896698556038480979788287402816244689234258510int);
    assert(mod_pow(3, 51620, 21888242871839275222246405745257275088696311157297823662689037894645226208583nat) == 19329093426254076692669957718193896698556038480979788287402816244689234258510nat);
    lemma_fundamental_div_mod_converse(19329093426254076692669957718193896698556038480979788287402816244689234258510int * 19329093426254076692669957718193896698556038480979788287402816244689234258510int, m, 17069156938199840264974712855177712097871074738641443426598901038990557142015int, 12032401893401309371373752328245554873844205710469681700319181292678764505355int);
    assert(mod_pow(3, 103240, 21888242871839275222246405745257275088696311157297823662689037894645226208583nat) == 12032401893401309371373752328245554873844205710469681700319181292678764505355nat);
    lemma_fundamental_div_mod_converse(12032401893401309371373752328245554873844205710469681700319181292678764505355int * 12032401893401309371373752328245554873844205710469681700319181292678764505355int, m, 6614450331716445365120705415852563695313182487437802308672293124094421919639int, 9374395118641183783870333071932941168833903011512347273262910276017145614488int);
    assert(mod_pow(3, 206480, 21888242871839275222246405745257275088696311157297823662689037894645226208583nat) == 9374395118641183783870333071932941168833903011512347273262910276017145614488nat);
    lemma_fundamental_div_mod_converse(9374395118641183783870333071932941168833903011512347273262910276017145614488int * 9374395118641183783870333071932941168833903011512347273262910276017145614488int, m, 4014908110941439548403093827431466497485660006447783849790265147644219614592int, 2366341320054884504842545731575490337805065733821293550025444105173453059008int);
    assert(mod_pow(3, 412960, 21888242871839275222246405745257275088696311157297823662689037894645226208583nat) == 2366341320054884504842545731575490337805065733821293550025444105173453059008nat);
    lemma_fundamental_div_mod_converse(2366341320054884504842545731575490337805065733821293550025444105173453059008int * 2366341320054884504842545731575490337805065733821293550025444105173453059008int, m, 255825525867283096001688037181977783987382028527163816569055481082658349796int, 4855176833646288219978908456406366876649945749688172044737562665632258444996int);
    assert(mod_pow(3, 825920, 21888242871839275222246405745257275088696311157297823662689037894645226208583nat) == 4855176833646288219978908456406366876649945749688172044737562665632258444996nat);
    lemma_fundamental_div_mod_converse(4855176833646288219978908456406366876649945749688172044737562665632258444996int * 4855176833646288219978908456406366876649945749688172044737562665632258444996int, m, 1076959088219161966437368529546574157245255175437479029078295116273502156995int, 513990134731220358996012599074075533848793105391219486752980993603674951931int);
    lemma_fundamental_div_mod_converse(513990134731220358996012599074075533848793105391219486752980993603674951931int * 3, m, 0int, 1541970404193661076988037797222226601546379316173658460258942980811024855793int);
    assert(mod_pow(3, 1651841, 21888242871839275222246405745257275088696311157297823662689037894645226208583nat) == 1541970404193661076988037797222226601546379316173658460258942980811024855793nat);
    lemma_fundamental_div_mod_converse(1541970404193661076988037797222226601546379316173658460258942980811024855793int * 1541970404193661076988037797222226601546379316173658460258942980811024855793int, m, 108627848353610944941027487431791115148709231679829217303845053115347777513int, 13847246767604040248629453223336247823681769862459058813526506319868030664770int);
    assert(mod_pow(3, 3303682, 21888242871839275222246405745257275088696311157297823662689037894645226208583nat) == 13847246767604040248629453223336247823681769862459058813526506319868030664770nat);
    lemma_fundamental_div_mod_converse(13847246767604040248629453223336247823681769862459058813526506319868030664770int * 13847246767604040248629453223336247823681769862459058813526506319868030664770int, m, 8760239191681083999370759434779793124956449729906049164110107781310295037906int, 11475531374214545458729381538296721885847691140598071856100413103841471605702int);
    lemma_fundamental_div_mod_converse(11475531374214545458729381538296721885847691140598071856100413103841471605702int * 3, m, 1int, 12538351250804361153941738869632890568846762264496391905612201416879188608523int);
    assert(mod_pow(3, 6607365, 21888242871839275222246405745257275088696311157297823662689037894645226208583nat) == 12538351250804361153941738869632890568846762264496391905612201416879188608523nat);
    lemma_fundamental_div_mod_converse(12538351250804361153941738869632890568846762264496391905612201416879188608523int * 12538351250804361153941738869632890568846762264496391905612201416879188608523int, m, 7182406235578144698985319797013394846799009584641347612272182689020497742787int, 5852761427371597704688911290891672262836235524309019750343475364643402500708int);
    lemma_fundamental_div_mod_converse(5852761427371597704688911290891672262836235524309019750343475364643402500708int * 3, m, 0int, 17558284282114793114066733872675016788508706572927059251030426093930207502124int);
    assert(mod_pow(3, 13214731, 21888242871839275222246405745257275088696311157297823662689037894645226208583nat) == 17558284282114793114066733872675016788508706572927059251030426093930207502124nat);
    lemma_fundamental_div_mod_converse(17558284282114793114066733872675016788508706572927059251030426093930207502124int * 17558284282114793114066733872675016788508706572927059251030426093930207502124int, m, 14084883320085958955093909508635209560312423721839627803276618372806810451985int, 1740003625577049437040657660492801378164802927557639228661384626353348124121int);
    assert(mod_pow(3, 26429462, 21888242871839275222246405745257275088696311157297823662689037894645226208583nat) == 1740003625577049437040657660492801378164802927557639228661384626353348124121nat);
    lemma_fundamental_div_mod_converse(1740003625577049437040657660492801378164802927557639228661384626353348124121int * 1740003625577049437040657660492801378164802927557639228661384626353348124121int, m, 138321410025859499597015587623884882005535893119287255043001568260940111186int, 7149550804081890782729654735278558867931263976736798819136485276060374513203int);
    assert(mod_pow(3, 52858924, 21888242871839275222246405745257275088696311157297823662689037894645226208583nat) == 7149550804081890782729654735278558867931263976736798819136485276060374513203nat);
    lemma_fundamental_div_mod_converse(7149550804081890782729654735278558867931263976736798819136485276060374513203int * 7149550804081890782729654735278558867931263976736798819136485276060374513203int, m, 2335321158461392414925761443359983722276985499818068545586647115533835532651int, 10476726358085253592845898551237457343255611486285729724136138122208188375676int);
    lemma_fundamental_div_mod_converse(10476726358085253592845898551237457343255611486285729724136138122208188375676int * 3, m, 1int, 9541936202416485556291289908455096941070523301559365509719376471979338918445int);
    assert(mod_pow(3, 105717849, 21888242871839275222246405745257275088696311157297823662689037894645226208583nat) == 9541936202416485556291289908455096941070523301559365509719376471979338918445nat);
    lemma_fundamental_div_mod_converse(9541936202416485556291289908455096941070523301559365509719376471979338918445int * 9541936202416485556291289908455096941070523301559365509719376471979338918445int, m, 4159701033294295997367760676400085024567536660303399482763045134311282269269int, 11937040345342693607799976739464901375909946842034827766919189363472996282198int);
    lemma_fundamental_div_mod_converse(11937040345342693607799976739464901375909946842034827766919189363472996282198int * 3, m, 1int, 13922878164188805601153524473137429039033529368806659638068530195773762638011int);
    assert(mod_pow(3, 211435699, 21888242871839275222246405745257275088696311157297823662689037894645226208583nat) == 13922878164188805601153524473137429039033529368806659638068530195773762638011nat);
    lemma_fundamental_div_mod_converse(13922878164188805601153524473137429039033529368806659638068530195773762638011int * 13922878164188805601153524473137429039033529368806659638068530195773762638011int, m, 8856194510900749454806459353324004711497775038360802677386490228851431549315int, 4089100879843028963691555923174415730276249296171107705575184305274781265476int);
    lemma_fundamental_div_mod_converse(4089100879843028963691555923174415730276249296171107705575184305274781265476int * 3, m, 0int, 12267302639529086891074667769523247190828747888513323116725552915824343796428int);
    assert(mod_pow(3, 422871399, 21888242871839275222246405745257275088696311157297823662689037894645226208583nat) == 12267302639529086891074667769523247190828747888513323116725552915824343796428nat);
    lemma_fundamental_div_mod_converse(12267302639529086891074667769523247190828747888513323116725552915824343796428int * 12267302639529086891074667769523247190828747888513323116725552915824343796428int, m, 6875230457325049835038188199818480144253884360389560984966393761275141412602int, 7993623924495586259568363749456550734401211416120483623255228620968588796218int);
    lemma_fundamental_div_mod_converse(7993623924495586259568363749456550734401211416120483623255228620968588796218int * 3, m, 1int, 2092628901647483556458685503112377114507323091063627207076647968260540180071int);
    assert(mod_pow(3, 845742799, 21888242871839275222246405745257275088696311157297823662689037894645226208583nat) == 2092628901647483556458685503112377114507323091063627207076647968260540180071nat);
    lemma_fundamental_div_mod_converse(2092628901647483556458685503112377114507323091063627207076647968260540180071int * 2092628901647483556458685503112377114507323091063627207076647968260540180071int, m, 200066115203992012322223402142010666063905645764389084982854721782792406297int, 18782753559926823737551165263157774620194365414806819847586011603852500917890int);
    lemma_fundamental_div_mod_converse(18782753559926823737551165263157774620194365414806819847586011603852500917890int * 3, m, 2int, 12571774936101920768160684298958773683190473929824812217379959022267050336504int);
    assert(mod_pow(3, 1691485599, 21888242871839275222246405745257275088696311157297823662689037894645226208583nat) == 12571774936101920768160684298958773683190473929824812217379959022267050336504nat);
    lemma_fundamental_div_mod_converse(12571774936101920768160684298958773683190473929824812217379959022267050336504int * 12571774936101920768160684298958773683190473929824812217379959022267050336504int, m, 7220749786514019425483231733992517932871465946639602396911200987234118380434int, 5500780292827626715114847643572868364666408366559225945886408018877404876994int);
    assert(mod_pow(3, 3382971198, 21888242871839275222246405745257275088696311157297823662689037894645226208583nat) == 5500780292827626715114847643572868364666408366559225945886408018877404876994nat);
    lemma_fundamental_div_mod_converse(5500780292827626715114847643572868364666408366559225945886408018877404876994int * 5500780292827626715114847643572868364666408366559225945886408018877404876994int, m, 1382412649892994968311482822669921756360679594372527514636558330013490332347int, 16492747354058007424337274597363341775768508562695044047142574356076856541735int);
    lemma_fundamental_div_mod_converse(16492747354058007424337274597363341775768508562695044047142574356076856541735int * 3, m, 2int, 5701756318495471828519012301575475149912903373489484816049647278940117208039int);
    assert(mod_pow(3, 6765942397, 21888242871839275222246405745257275088696311157297823662689037894645226208583nat) == 5701756318495471828519012301575475149912903373489484816049647278940117208039nat);
    lemma_fundamental_div_mod_converse(5701756318495471828519012301575475149912903373489484816049647278940117208039int * 5701756318495471828519012301575475149912903373489484816049647278940117208039int, m, 1485273409375834918329269193087944852982132906455602522804759705591709253619int, 9457901097556554178437942196726455382718101330731476554754995837980264613644int);
    lemma_fundamental_div_mod_converse(9457901097556554178437942196726455382718101330731476554754995837980264613644int * 3, m, 1int, 6485460420830387313067420844922091059457992834896606001575949619295567632349int);
    assert(mod_pow(3, 13531884795, 21888242871839275222246405745257275088696311157297823662689037894645226208583nat) == 6485460420830387313067420844922091059457992834896606001575949619295567632349nat);
    lemma_fundamental_div_mod_converse(6485460420830387313067420844922091059457992834896606001575949619295567632349int * 6485460420830387313067420844922091059457992834896606001575949619295567632349int, m, 1921634236079867212675224512381189186774434402798137711757993116397272943944int, 17686997934993288316472853134051810544178087003141726561258631396799820586449int);
    assert(mod_pow(3, 27063769590, 21888242871839275222246405745257275088696311157297823662689037894645226208583nat) == 17686997934993288316472853134051810544178087003141726561258631396799820586449nat);
    lemma_fundamental_div_mod_converse(17686997934993288316472853134051810544178087003141726561258631396799820586449int * 17686997934993288316472853134051810544178087003141726561258631396799820586449int, m, 14292142945605466994115736866086307027420144930956486115175549303044527955171int, 21856803746282331525790355423712151441375814946095467138438954901684162996908int);
    assert(mod_pow(3, 54127539180, 21888242871839275222246405745257275088696311157297823662689037894645226208583nat) == 21856803746282331525790355423712151441375814946095467138438954901684162996908nat);
    lemma_fundamental_div_mod_converse(21856803746282331525790355423712151441375814946095467138438954901684162996908int * 21856803746282331525790355423712151441375814946095467138438954901684162996908int, m, 21825409778238559292658660995927821360502596304367919882653195942303051956434int, 14153592921981826883560533233758602827621147917269761565446553518565704687442int);
    lemma_fundamental_div_mod_converse(14153592921981826883560533233758602827621147917269761565446553518565704687442int * 3, m, 1int, 20572535894106205428435193956018533394167132594511461033650622661051887853743int);
    assert(mod_pow(3, 108255078361, 21888242871839275222246405745257275088696311157297823662689037894645226208583nat) == 20572535894106205428435193956018533394167132594511461033650622661051887853743nat);
    lemma_fundamental_div_mod_converse(20572535894106205428435193956018533394167132594511461033650622661051887853743int * 20572535894106205428435193956018533394167132594511461033650622661051887853743int, m, 19335916345244945529061297587360462301534883095624620191511935534051090826571int, 2770315175029207312091895507355420837211525993390583419491579494277034451156int);
    assert(mod_pow(3, 216510156722, 21888242871839275222246405745257275088696311157297823662689037894645226208583nat) == 2770315175029207312091895507355420837211525993390583419491579494277034451156nat);
    lemma_fundamental_div_mod_converse(2770315175029207312091895507355420837211525993390583419491579494277034451156int * 2770315175029207312091895507355420837211525993390583419491579494277034451156int, m, 350628701167742701611975614970670876220924767221571537060777245073852718309int, 4087185294669647046356566359111313776987801810379758918486072746241772690189int);
    assert(mod_pow(3, 433020313444, 21888242871839275222246405745257275088696311157297823662689037894645226208583nat) == 4087185294669647046356566359111313776987801810379758918486072746241772690189nat);
    lemma_fundamental_div_mod_converse(4087185294669647046356566359111313776987801810379758918486072746241772690189int * 4087185294669647046356566359111313776987801810379758918486072746241772690189int, m, 763198934276083197859168895363737039282232628536808503630450231942842654154int, 16134909290739684724766011213539101752996611401025841073007176330108041451939int);
    assert(mod_pow(3, 866040626888, 21888242871839275222246405745257275088696311157297823662689037894645226208583nat) == 16134909290739684724766011213539101752996611401025841073007176330108041451939nat);
    lemma_fundamental_div_mod_converse(16134909290739684724766011213539101752996611401025841073007176330108041451939int * 16134909290739684724766011213539101752996611401025841073007176330108041451939int, m, 11893841791902674893426845787987057006009162382396189988273211793143197106225int, 11045970635661472346224808122962782815626462714830616447143527678473389130546int);
    assert(mod_pow(3, 1732081253776, 21888242871839275222246405745257275088696311157297823662689037894645226208583nat) == 11045970635661472346224808122962782815626462714830616447143527678473389130546nat);
    lemma_fundamental_div_mod_converse(11045970635661472346224808122962782815626462714830616447143527678473389130546int * 11045970635661472346224808122962782815626462714830616447143527678473389130546int, m, 5574383836944453887055317131806754786068774873547679183328940041633035638423int, 1785236914821863734848053920925859654251872601125223988562615352506663073507int);
    lemma_fundamental_div_mod_converse(1785236914821863734848053920925859654251872601125223988562615352506663073507int * 3, m, 0int, 5355710744465591204544161762777578962755617803375671965687846057519989220521int);
    assert(mod_pow(3, 3464162507553, 21888242871839275222246405745257275088696311157297823662689037894645226208583nat) == 5355710744465591204544161762777578962755617803375671965687846057519989220521nat);
    lemma_fundamental_div_mod_converse(5355710744465591204544161762777578962755617803375671965687846057519989220521int * 5355710744465591204544161762777578962755617803375671965687846057519989220521int, m, 1310458667072250145087634035393825009565231777174645399815002334011583879990int, 5456330934048747337273284556812135815120185094364329605887064103408987557271int);
    assert(mod_pow(3, 6928325015106, 21888242871839275222246405745257275088696311157297823662689037894645226208583nat) == 5456330934048747337273284556812135815120185094364329605887064103408987557271nat);
    lemma_fundamental_div_mod_converse(5456330934048747337273284556812135815120185094364329605887064103408987557271int * 5456330934048747337273284556812135815120185094364329605887064103408987557271int, m, 1360161591598584270047099159052028220609832311167384610948554128421824221427int, 5289811252355421585256253843415777894919467297764183943176829386680425059500int);
    assert(mod_pow(3, 13856650030212, 21888242871839275222246405745257275088696311157297823662689037894645226208583nat) == 5289811252355421585256253843415777894919467297764183943176829386680425059500nat);
    lemma_fundamental_div_mod_converse(5289811252355421585256253843415777894919467297764183943176829386680425059500int * 5289811252355421585256253843415777894919467297764183943176829386680425059500int, m, 1278407921978375310813261287887512299680036082715605394544483929449628566101int, 19271561889505491856572412957375090075692724375909778178144866718619511205117int);
    lemma_fundamental_div_mod_converse(19271561889505491856572412957375090075692724375909778178144866718619511205117int * 3, m, 2int, 14038199924837925125224427381610720049685550813133687209056524366568081198185int);
    assert(mod_pow(3, 27713300060425, 21888242871839275222246405745257275088696311157297823662689037894645226208583nat) == 14038199924837925125224427381610720049685550813133687209056524366568081198185nat);
    lemma_fundamental_div_mod_converse(14038199924837925125224427381610720049685550813133687209056524366568081198185int * 14038199924837925125224427381610720049685550813133687209056524366568081198185int, m, 9003511989683966354827113466214868047316198113281710235278461622484589503706int, 8269026590571801040834366266924398590861957341545072403881414165965239785627int);
    assert(mod_pow(3, 55426600120850, 21888242871839275222246405745257275088696311157297823662689037894645226208583nat) == 8269026590571801040834366266924398590861957341545072403881414165965239785627nat);
    lemma_fundamental_div_mod_converse(8269026590571801040834366266924398590861957341545072403881414165965239785627int * 8269026590571801040834366266924398590861957341545072403881414165965239785627int, m, 3123905429775495828477984106847222959158716184290802314033233451868523574767int, 19112866886423063905785010482047032671965821945924027830031952824391778157968int);
    lemma_fundamental_div_mod_converse(19112866886423063905785010482047032671965821945924027830031952824391778157968int * 3, m, 2int, 13562114915590641272862219955626547838504843523176436164717782683884882056738int);
    assert(mod_pow(3, 110853200241701, 21888242871839275222246405745257275088696311157297823662689037894645226208583nat) == 13562114915590641272862219955626547838504843523176436164717782683884882056738nat);
    lemma_fundamental_div_mod_converse(13562114915590641272862219955626547838504843523176436164717782683884882056738int * 13562114915590641272862219955626547838504843523176436164717782683884882056738int, m, 8403185310974684754451774668033239944051955857493688092492973233804694700315int, 18061237117684260623698743579498164861585226112773828130223284444792185396999int);
    lemma_fundamental_div_mod_converse(18061237117684260623698743579498164861585226112773828130223284444792185396999int * 3, m, 2int, 10407225609374231426603419247979944407363056023725837065291777545086103773831int);
    assert(mod_pow(3, 221706400483403, 21888242871839275222246405745257275088696311157297823662689037894645226208583nat) == 10407225609374231426603419247979944407363056023725837065291777545086103773831nat);
    lemma_fundamental_div_mod_converse(10407225609374231426603419247979944407363056023725837065291777545086103773831int * 10407225609374231426603419247979944407363056023725837065291777545086103773831int, m, 4948334387488158103762974761278197677133287825448063368844914352408842951481int, 6247848160987557285578292345778692401926543844453923111371817937970945655138int);
    lemma_fundamental_div_mod_converse(6247848160987557285578292345778692401926543844453923111371817937970945655138int * 3, m, 0int, 18743544482962671856734877037336077205779631533361769334115453813912836965414int);
    assert(mod_pow(3, 443412800966807, 21888242871839275222246405745257275088696311157297823662689037894645226208583nat) == 18743544482962671856734877037336077205779631533361769334115453813912836965414nat);
    lemma_fundamental_div_mod_converse(18743544482962671856734877037336077205779631533361769334115453813912836965414int * 18743544482962671856734877037336077205779631533361769334115453813912836965414int, m, 16050646999937956030797489294457705448519056748603023316751195355030836920120int, 8946637664653882299809030999556207005478669361338306997423624291835802801436int);
    assert(mod_pow(3, 886825601933614, 21888242871839275222246405745257275088696311157297823662689037894645226208583nat) == 8946637664653882299809030999556207005478669361338306997423624291835802801436nat);
    lemma_fundamental_div_mod_converse(8946637664653882299809030999556207005478669361338306997423624291835802801436int * 8946637664653882299809030999556207005478669361338306997423624291835802801436int, m, 3656863914169346647539173128661784761497243399021949758167208278268853445719int, 17442584979223110099539868432133315591684185696757232074878271334519881255919int);
    assert(mod_pow(3, 1773651203867228, 21888242871839275222246405745257275088696311157297823662689037894645226208583nat) == 17442584979223110099539868432133315591684185696757232074878271334519881255919nat);
    lemma_fundamental_div_mod_converse(17442584979223110099539868432133315591684185696757232074878271334519881255919int * 17442584979223110099539868432133315591684185696757232074878271334519881255919int, m, 13899871841647468630820326829489102016814213913393939720439982158824391167077int, 18473231998908701679602300559435191335100883582876838086064107073509568112670int);
    assert(mod_pow(3, 3547302407734456, 21888242871839275222246405745257275088696311157297823662689037894645226208583nat) == 18473231998908701679602300559435191335100883582876838086064107073509568112670nat);
    lemma_fundamental_div_mod_converse(18473231998908701679602300559435191335100883582876838086064107073509568112670int * 18473231998908701679602300559435191335100883582876838086064107073509568112670int, m, 15591032248849867892059014055887503063317098586572404315639715726018746467971int, 19193839881620755093931915746830527065266275157263880166802209484814839733807int);
    assert(mod_pow(3, 7094604815468912, 21888242871839275222246405745257275088696311157297823662689037894645226208583nat) == 19193839881620755093931915746830527065266275157263880166802209484814839733807nat);
    lemma_fundamental_div_mod_converse(19193839881620755093931915746830527065266275157263880166802209484814839733807int * 19193839881620755093931915746830527065266275157263880166802209484814839733807int, m, 16831113011600934999713262354028312750186509212688946612903854082664713237061int, 7298188063173219496059725431916158686753076188633957361532865882860706818686int);
    lemma_fundamental_div_mod_converse(7298188063173219496059725431916158686753076188633957361532865882860706818686int * 3, m, 1int, 6321317680383265932770550491200971562917408604048421909559753936894247475int);
    assert(mod_pow(3, 14189209630937825, 21888242871839275222246405745257275088696311157297823662689037894645226208583nat) == 6321317680383265932770550491200971562917408604048421909559753936894247475nat);
    lemma_fundamental_div_mod_converse(6321317680383265932770550491200971562917408604048421909559753936894247475int * 6321317680383265932770550491200971562917408604048421909559753936894247475int, m, 1825594564638906667315647424664358361930704200321119360734630005239744int, 18941774568661819964076393276251822196544652171983652936563847016301478352873int);
    lemma_fundamental_div_mod_converse(18941774568661819964076393276251822196544652171983652936563847016301478352873int * 3, m, 2int, 13048837962306909447736368338240916412241334201355311484313465259613982641453int);
    assert(mod_pow(3, 28378419261875651, 21888242871839275222246405745257275088696311157297823662689037894645226208583nat) == 13048837962306909447736368338240916412241334201355311484313465259613982641453nat);
    lemma_fundamental_div_mod_converse(13048837962306909447736368338240916412241334201355311484313465259613982641453int * 13048837962306909447736368338240916412241334201355311484313465259613982641453int, m, 7779161313382937535705839216198240192965207568653595202998990674858872476444int, 9633672786354745438195059466182500820498266573640188703611091149349055832357int);
    assert(mod_pow(3, 56756838523751302, 21888242871839275222246405745257275088696311157297823662689037894645226208583nat) == 9633672786354745438195059466182500820498266573640188703611091149349055832357nat);
    lemma_fundamental_div_mod_converse(9633672786354745438195059466182500820498266573640188703611091149349055832357int * 9633672786354745438195059466182500820498266573640188703611091149349055832357int, m, 4240068602032710889029755259127405348815054584620448053116161016501270261324int, 13354220478373709959716012090603169612244000788187057547440468314943946431557int);
    lemma_fundamental_div_mod_converse(13354220478373709959716012090603169612244000788187057547440468314943946431557int * 3, m, 1int, 18174418563281854656901630526552233748035691207263348979632367050186613086088int);
    assert(mod_pow(3, 113513677047502605, 21888242871839275222246405745257275088696311157297823662689037894645226208583nat) == 18174418563281854656901630526552233748035691207263348979632367050186613086088nat);
    lemma_fundamental_div_mod_converse(18174418563281854656901630526552233748035691207263348979632367050186613086088int * 18174418563281854656901630526552233748035691207263348979632367050186613086088int, m, 15090726653911990074960625991988450901611361546166186633583795254884952648925int, 7522579709101491170330944602712627920593155372336923028386173225926878420469int);
    lemma_fundamental_div_mod_converse(7522579709101491170330944602712627920593155372336923028386173225926878420469int * 3, m, 1int, 679496255465198288746428062880608673083154959712945422469481783135409052824int);
    assert(mod_pow(3, 227027354095005211, 21888242871839275222246405745257275088696311157297823662689037894645226208583nat) == 679496255465198288746428062880608673083154959712945422469481783135409052824nat);
    lemma_fundamental_div_mod_converse(679496255465198288746428062880608673083154959712945422469481783135409052824int * 679496255465198288746428062880608673083154959712945422469481783135409052824int, m, 21094208607546758277671873514900422459727939071114352883734922563073465998int, 1427310591448498840878685367100677432802045818781315034335500613114516114142int);
    assert(mod_pow(3, 454054708190010422, 21888242871839275222246405745257275088696311157297823662689037894645226208583nat) == 1427310591448498840878685367100677432802045818781315034335500613114516114142nat);
    lemma_fundamental_div_mod_converse(1427310591448498840878685367100677432802045818781315034335500613114516114142int * 1427310591448498840878685367100677432802045818781315034335500613114516114142int, m, 93073506922845825373698638621490647246075974043876716336907192629976185952int, 7227978203801607029372579843352149829141781151662331019651438506795625970148int);
    assert(mod_pow(3, 908109416380020844, 21888242871839275222246405745257275088696311157297823662689037894645226208583nat) == 7227978203801607029372579843352149829141781151662331019651438506795625970148nat);
    lemma_fundamental_div_mod_converse(7227978203801607029372579843352149829141781151662331019651438506795625970148int * 7227978203801607029372579843352149829141781151662331019651438506795625970148int, m, 2386837044002566627515768912599037595611095365983407971786599432903007326922int, 5864690460293629943519624062672137335496028673102576881598421153394543770378int);
    lemma_fundamental_div_mod_converse(5864690460293629943519624062672137335496028673102576881598421153394543770378int * 3, m, 0int, 17594071380880889830558872188016412006488086019307730644795263460183631311134int);
    assert(mod_pow(3, 1816218832760041689, 21888242871839275222246405745257275088696311157297823662689037894645226208583nat) == 17594071380880889830558872188016412006488086019307730644795263460183631311134nat);
    lemma_fundamental_div_mod_converse(17594071380880889830558872188016412006488086019307730644795263460183631311134int * 17594071380880889830558872188016412006488086019307730644795263460183631311134int, m, 14142357135199326964128390442348282570166829927640627251774551312474567835230int, 2062824612684510845681875650481977621135794436438460298273064151897156586866int);
    lemma_fundamental_div_mod_converse(2062824612684510845681875650481977621135794436438460298273064151897156586866int * 3, m, 0int, 6188473838053532537045626951445932863407383309315380894819192455691469760598int);
    assert(mod_pow(3, 3632437665520083379, 21888242871839275222246405745257275088696311157297823662689037894645226208583nat) == 6188473838053532537045626951445932863407383309315380894819192455691469760598nat);
    lemma_fundamental_div_mod_converse(6188473838053532537045626951445932863407383309315380894819192455691469760598int * 6188473838053532537045626951445932863407383309315380894819192455691469760598int, m, 1749670298731242761764150713313571825863153918497938357468559211165430757575int, 4802623186680135010591247062616518832346232497911640286991490445324776051379int);
    assert(mod_pow(3, 7264875331040166758, 21888242871839275222246405745257275088696311157297823662689037894645226208583nat) == 4802623186680135010591247062616518832346232497911640286991490445324776051379nat);
    lemma_fundamental_div_mod_converse(4802623186680135010591247062616518832346232497911640286991490445324776051379int * 4802623186680135010591247062616518832346232497911640286991490445324776051379int, m, 1053770721034560622192453968228589431764928835021238409701836606696788395260int, 5585224410953223140453399589229336070666042507380785523377724663092239285061int);
    assert(mod_pow(3, 14529750662080333516nat, 21888242871839275222246405745257275088696311157297823662689037894645226208583nat) == 5585224410953223140453399589229336070666042507380785523377724663092239285061nat);
    lemma_fundamental_div_mod_converse(5585224410953223140453399589229336070666042507380785523377724663092239285061int * 5585224410953223140453399589229336070666042507380785523377724663092239285061int, m, 1425182089917411278258927799283540644293317044615143868567857747639888922682int, 7120034583832352870320629809428773001482391241464862813660746889197125994115int);
    lemma_fundamental_div_mod_converse(7120034583832352870320629809428773001482391241464862813660746889197125994115int * 3, m, 0int, 21360103751497058610961889428286319004447173724394588440982240667591377982345int);
    assert(mod_pow(3, 29059501324160667033nat, 21888242871839275222246405745257275088696311157297823662689037894645226208583nat) == 21360103751497058610961889428286319004447173724394588440982240667591377982345nat);
    lemma_fundamental_div_mod_converse(21360103751497058610961889428286319004447173724394588440982240667591377982345int * 21360103751497058610961889428286319004447173724394588440982240667591377982345int, m, 20844708044688265192876097904393331135530253358794103090553006728028900206858int, 6919804779414387498393182757101676544623560188647581022483771858191376636811int);
    assert(mod_pow(3, 58119002648321334066nat, 21888242871839275222246405745257275088696311157297823662689037894645226208583nat) == 6919804779414387498393182757101676544623560188647581022483771858191376636811nat);
    lemma_fundamental_div_mod_converse(6919804779414387498393182757101676544623560188647581022483771858191376636811int * 6919804779414387498393182757101676544623560188647581022483771858191376636811int, m, 2187644685120515540050223967127158984314457562640135609360085986643517004878int, 19300391979995443121397208971192289164950070273742271053132244806969543781847int);
    assert(mod_pow(3, 116238005296642668132nat, 21888242871839275222246405745257275088696311157297823662689037894645226208583nat) == 19300391979995443121397208971192289164950070273742271053132244806969543781847nat);
    lemma_fundamental_div_mod_converse(19300391979995443121397208971192289164950070273742271053132244806969543781847int * 19300391979995443121397208971192289164950070273742271053132244806969543781847int, m, 17018503164579090314305771945195700147444491399768243444588741750823272078387int, 8627212616417216261458361976345759943410497493316405554742259284292738535788int);
    lemma_fundamental_div_mod_converse(8627212616417216261458361976345759943410497493316405554742259284292738535788int * 3, m, 1int, 3993394977412373562128680183780004741535181322651393001537739958232989398781int);
    assert(mod_pow(3, 232476010593285336265nat, 21888242871839275222246405745257275088696311157297823662689037894645226208583nat) == 3993394977412373562128680183780004741535181322651393001537739958232989398781nat);
    lemma_fundamental_div_mod_converse(3993394977412373562128680183780004741535181322651393001537739958232989398781int * 3993394977412373562128680183780004741535181322651393001537739958232989398781int, m, 728573944422900290530412014856081809712324749078398231546714738273852404347int, 5956578310414714890868619339912046327222961355096237548186172300178366375660int);
    assert(mod_pow(3, 464952021186570672530nat, 21888242871839275222246405745257275088696311157297823662689037894645226208583nat) == 5956578310414714890868619339912046327222961355096237548186172300178366375660nat);
    lemma_fundamental_div_mod_converse(5956578310414714890868619339912046327222961355096237548186172300178366375660int * 5956578310414714890868619339912046327222961355096237548186172300178366375660int, m, 1620999244930324359163855542644559063263143506587680778667187844962386887177int, 11463587106935605106575113358049695059861408173382966870988007272873150395409int);
    assert(mod_pow(3, 929904042373141345060nat, 21888242871839275222246405745257275088696311157297823662689037894645226208583nat) == 11463587106935605106575113358049695059861408173382966870988007272873150395409nat);
    lemma_fundamental_div_mod_converse(11463587106935605106575113358049695059861408173382966870988007272873150395409int * 11463587106935605106575113358049695059861408173382966870988007272873150395409int, m, 6003854677954671989704105719426582796403118025196290008486095289575712587764int, 16382643997048694963433650463184533946905829461185878692737196759419690698869int);
    lemma_fundamental_div_mod_converse(16382643997048694963433650463184533946905829461185878692737196759419690698869int * 3, m, 2int, 5371446247467534445808139899039051663324866068961988752833514488968619679441int);
    assert(mod_pow(3, 1859808084746282690121nat, 21888242871839275222246405745257275088696311157297823662689037894645226208583nat) == 5371446247467534445808139899039051663324866068961988752833514488968619679441nat);
    lemma_fundamental_div_mod_converse(5371446247467534445808139899039051663324866068961988752833514488968619679441int * 5371446247467534445808139899039051663324866068961988752833514488968619679441int, m, 1318170442386386909841449487712889891633805301824224402560899913654878786258int, 5795050256796649589471140889544108578200591658824387001644595546699416020067int);
    assert(mod_pow(3, 3719616169492565380242nat, 21888242871839275222246405745257275088696311157297823662689037894645226208583nat) == 5795050256796649589471140889544108578200591658824387001644595546699416020067nat);
    lemma_fundamental_div_mod_converse(5795050256796649589471140889544108578200591658824387001644595546699416020067int * 5795050256796649589471140889544108578200591658824387001644595546699416020067int, m, 1534276080333759489795239586577241259225378104259895501449403492105646042298int, 19216033509930886554345201283822323675988764069805491106917404718624358040755int);
    assert(mod_pow(3, 7439232338985130760484nat, 21888242871839275222246405745257275088696311157297823662689037894645226208583nat) == 19216033509930886554345201283822323675988764069805491106917404718624358040755nat);
    lemma_fundamental_div_mod_converse(19216033509930886554345201283822323675988764069805491106917404718624358040755int * 19216033509930886554345201283822323675988764069805491106917404718624358040755int, m, 16870058780728343883338058519975729295788082320404788142098043584221447046812int, 17584207581755561078987978018140131077083772057643517848617313419013363782629int);
    assert(mod_pow(3, 14878464677970261520968nat, 21888242871839275222246405745257275088696311157297823662689037894645226208583nat) == 17584207581755561078987978018140131077083772057643517848617313419013363782629nat);
    lemma_fundamental_div_mod_converse(17584207581755561078987978018140131077083772057643517848617313419013363782629int * 17584207581755561078987978018140131077083772057643517848617313419013363782629int, m, 14126504264811606049053429247592376824248955353146383390966945630640522536259int, 13574664546374358203082778673381955048480337170720591039617919369793447640644int);
    assert(mod_pow(3, 29756929355940523041936nat, 21888242871839275222246405745257275088696311157297823662689037894645226208583nat) == 13574664546374358203082778673381955048480337170720591039617919369793447640644nat);
    lemma_fundamental_div_mod_converse(13574664546374358203082778673381955048480337170720591039617919369793447640644int * 13574664546374358203082778673381955048480337170720591039617919369793447640644int, m, 8418744191826877904862458829474373125982017232019969096973303088272510316832int, 1212012798834962488563124347722260114489331785864972740726791074266712965680int);
    lemma_fundamental_div_mod_converse(1212012798834962488563124347722260114489331785864972740726791074266712965680int * 3, m, 0int, 3636038396504887465689373043166780343467995357594918222180373222800138897040int);
    assert(mod_pow(3, 59513858711881046083873nat, 21888242871839275222246405745257275088696311157297823662689037894645226208583nat) == 3636038396504887465689373043166780343467995357594918222180373222800138897040nat);
    lemma_fundamental_div_mod_converse(3636038396504887465689373043166780343467995357594918222180373222800138897040int * 3636038396504887465689373043166780343467995357594918222180373222800138897040int, m, 604012633552566559549019827312166795989941253577481223207346644005989180293int, 1749438987869655847708104205886257242904645824420845088215935829415309706781int);
    lemma_fundamental_div_mod_converse(1749438987869655847708104205886257242904645824420845088215935829415309706781int * 3, m, 0int, 5248316963608967543124312617658771728713937473262535264647807488245929120343int);
    assert(mod_pow(3, 119027717423762092167747nat, 21888242871839275222246405745257275088696311157297823662689037894645226208583nat) == 5248316963608967543124312617658771728713937473262535264647807488245929120343nat);
    lemma_fundamental_div_mod_converse(5248316963608967543124312617658771728713937473262535264647807488245929120343int * 5248316963608967543124312617658771728713937473262535264647807488245929120343int, m, 1258430432802989673167264610331788939878507569484988254150355665880191506629int, 18089516044317362718250506514009023461824493327250878756196688330493595240942int);
    assert(mod_pow(3, 238055434847524184335494nat, 21888242871839275222246405745257275088696311157297823662689037894645226208583nat) == 18089516044317362718250506514009023461824493327250878756196688330493595240942nat);
    lemma_fundamental_div_mod_converse(18089516044317362718250506514009023461824493327250878756196688330493595240942int * 18089516044317362718250506514009023461824493327250878756196688330493595240942int, m, 14950062123927721525123773663982359367729490317557024892951143404235668711184int, 232989748782340161782155334317991919056574256063419007669603573696664155092int);
    lemma_fundamental_div_mod_converse(232989748782340161782155334317991919056574256063419007669603573696664155092int * 3, m, 0int, 698969246347020485346466002953975757169722768190257023008810721089992465276int);
    assert(mod_pow(3, 476110869695048368670989nat, 21888242871839275222246405745257275088696311157297823662689037894645226208583nat) == 698969246347020485346466002953975757169722768190257023008810721089992465276nat);
    lemma_fundamental_div_mod_converse(698969246347020485346466002953975757169722768190257023008810721089992465276int * 698969246347020485346466002953975757169722768190257023008810721089992465276int, m, 22320567722111909430810179341614528190727343703398394979073436804914929778int, 9622318969110784766857088402738058391111723230738368356042974705941439871602int);
    assert(mod_pow(3, 952221739390096737341978nat, 21888242871839275222246405745257275088696311157297823662689037894645226208583nat) == 9622318969110784766857088402738058391111723230738368356042974705941439871602nat);
    lemma_fundamental_div_mod_converse(9622318969110784766857088402738058391111723230738368356042974705941439871602int * 9622318969110784766857088402738058391111723230738368356042974705941439871602int, m, 4230080179822536573734548927163576782364348879551672696437885706682643311300int, 20547546939021245959966478435880241326548177991133341770108714299346645158504int);
    lemma_fundamental_div_mod_converse(20547546939021245959966478435880241326548177991133341770108714299346645158504int * 3, m, 2int, 17866155073385187435406623817126173802251911658804377984948067108749483058346int);
    assert(mod_pow(3, 1904443478780193474683957nat, 21888242871839275222246405745257275088696311157297823662689037894645226208583nat) == 17866155073385187435406623817126173802251911658804377984948067108749483058346nat);
    lemma_fundamental_div_mod_converse(17866155073385187435406623817126173802251911658804377984948067108749483058346int * 17866155073385187435406623817126173802251911658804377984948067108749483058346int, m, 14583148541216129536726149677841148249783895278359811660566963107808145073631int, 16773637017024382480650768108396762748676174329185616191236519144714141080843int);
    assert(mod_pow(3, 3808886957560386949367914nat, 21888242871839275222246405745257275088696311157297823662689037894645226208583nat) == 16773637017024382480650768108396762748676174329185616191236519144714141080843nat);
    lemma_fundamental_div_mod_converse(16773637017024382480650768108396762748676174329185616191236519144714141080843int * 16773637017024382480650768108396762748676174329185616191236519144714141080843int, m, 12854156472325742817682541979570591620373366268472899721678909853705221738251int, 9896906998037247112279678569186809997623031505058954100092100056602705982316int);
    lemma_fundamental_div_mod_converse(9896906998037247112279678569186809997623031505058954100092100056602705982316int * 3, m, 1int, 7802478122272466114592629962303154904172783357879038637587262275162891738365int);
    assert(mod_pow(3, 7617773915120773898735829nat, 21888242871839275222246405745257275088696311157297823662689037894645226208583nat) == 7802478122272466114592629962303154904172783357879038637587262275162891738365nat);
    lemma_fundamental_div_mod_converse(7802478122272466114592629962303154904172783357879038637587262275162891738365int * 7802478122272466114592629962303154904172783357879038637587262275162891738365int, m, 2781340887205936659172596422655702228549222527416266484284184031930774407429int, 369923461598481933457705411376376873279168386103033621903184627069434110118int);
    assert(mod_pow(3, 15235547830241547797471658nat, 21888242871839275222246405745257275088696311157297823662689037894645226208583nat) == 369923461598481933457705411376376873279168386103033621903184627069434110118nat);
    lemma_fundamental_div_mod_converse(369923461598481933457705411376376873279168386103033621903184627069434110118int * 369923461598481933457705411376376873279168386103033621903184627069434110118int, m, 6251911962154893200699183700551181337568499063593562850740426188697230065int, 18048639764437992731963383781371897493014832003888178895186849826924521326029int);
    lemma_fundamental_div_mod_converse(18048639764437992731963383781371897493014832003888178895186849826924521326029int * 3, m, 2int, 10369433549635427751397339853601142301651873697068889360182473691483111560921int);
    assert(mod_pow(3, 30471095660483095594943317nat, 21888242871839275222246405745257275088696311157297823662689037894645226208583nat) == 10369433549635427751397339853601142301651873697068889360182473691483111560921nat);
    lemma_fundamental_div_mod_converse(10369433549635427751397339853601142301651873697068889360182473691483111560921int * 10369433549635427751397339853601142301651873697068889360182473691483111560921int, m, 4912461579026211628721470722065110097042615061757819349857321300428028758290int, 15878758784107291522051659236612635909613672882586844882248507081579063965171int);
    assert(mod_pow(3, 60942191320966191189886634nat, 21888242871839275222246405745257275088696311157297823662689037894645226208583nat) == 15878758784107291522051659236612635909613672882586844882248507081579063965171nat);
    lemma_fundamental_div_mod_converse(15878758784107291522051659236612635909613672882586844882248507081579063965171int * 15878758784107291522051659236612635909613672882586844882248507081579063965171int, m, 11519196949712825327521658806013398141836342196377415738064370490355769323538int, 17661196646797897198501272310355151836035198522733794085867071062998701532587int);
    assert(mod_pow(3, 121884382641932382379773268nat, 21888242871839275222246405745257275088696311157297823662689037894645226208583nat) == 17661196646797897198501272310355151836035198522733794085867071062998701532587nat);
    lemma_fundamental_div_mod_converse(17661196646797897198501272310355151836035198522733794085867071062998701532587int * 17661196646797897198501272310355151836035198522733794085867071062998701532587int, m, 14250475418388609173286732742331071365455999499197768679956542091461386841637int, 16573139023960556769218194145811310922882581234569752494326303929096071742198int);
    assert(mod_pow(3, 243768765283864764759546536nat, 21888242871839275222246405745257275088696311157297823662689037894645226208583nat) == 16573139023960556769218194145811310922882581234569752494326303929096071742198nat);
    lemma_fundamental_div_mod_converse(16573139023960556769218194145811310922882581234569752494326303929096071742198int * 16573139023960556769218194145811310922882581234569752494326303929096071742198int, m, 12548697431574312937255645552244304081012988209260728375225340411808921244600int, 15851587097555638087891404636785436588008077062071566355349763824459411469404int);
    assert(mod_pow(3, 487537530567729529519093072nat, 21888242871839275222246405745257275088696311157297823662689037894645226208583nat) == 15851587097555638087891404636785436588008077062071566355349763824459411469404nat);
    lemma_fundamental_div_mod_converse(15851587097555638087891404636785436588008077062071566355349763824459411469404int * 15851587097555638087891404636785436588008077062071566355349763824459411469404int, m, 11479807446520619364180413136203621404971798989148824325865089250047317599409int, 19891480929139699781576775462404844460741193586817632534608387350024156587769int);
    assert(mod_pow(3, 975075061135459059038186144nat, 21888242871839275222246405745257275088696311157297823662689037894645226208583nat) == 19891480929139699781576775462404844460741193586817632534608387350024156587769nat);
    lemma_fundamental_div_mod_converse(19891480929139699781576775462404844460741193586817632534608387350024156587769int * 19891480929139699781576775462404844460741193586817632534608387350024156587769int, m, 18076874232028293792978419199394979615386517608864949700747027173056016108117int, 16598120162446372472330765210374914260989005683448844827808312515734079029150int);
    assert(mod_pow(3, 1950150122270918118076372288nat, 21888242871839275222246405745257275088696311157297823662689037894645226208583nat) == 16598120162446372472330765210374914260989005683448844827808312515734079029150nat);
    lemma_fundamental_div_mod_converse(16598120162446372472330765210374914260989005683448844827808312515734079029150int * 16598120162446372472330765210374914260989005683448844827808312515734079029150int, m, 12586555921373447994371071592998001628994859112563751554092761658633280391465int, 16765095824821931658214107709161968584683835380106246800500454258886566778405int);
    lemma_fundamental_div_mod_converse(16765095824821931658214107709161968584683835380106246800500454258886566778405int * 3, m, 2int, 6518801730787244530149511636971355576658883825723093076123286987369247918049int);
    assert(mod_pow(3, 3900300244541836236152744577nat, 21888242871839275222246405745257275088696311157297823662689037894645226208583nat) == 6518801730787244530149511636971355576658883825723093076123286987369247918049nat);
    lemma_fundamental_div_mod_converse(6518801730787244530149511636971355576658883825723093076123286987369247918049int * 6518801730787244530149511636971355576658883825723093076123286987369247918049int, m, 1941443004545020698461384923456477380450356235098365544570595007624718186098int, 2029825876143198426758103600542435981358547790039023402361392367659461087267int);
    assert(mod_pow(3, 7800600489083672472305489154nat, 21888242871839275222246405745257275088696311157297823662689037894645226208583nat) == 2029825876143198426758103600542435981358547790039023402361392367659461087267nat);
    lemma_fundamental_div_mod_converse(2029825876143198426758103600542435981358547790039023402361392367659461087267int * 2029825876143198426758103600542435981358547790039023402361392367659461087267int, m, 188237727056721119653095102476018093592473565099916105288890184897153955633int, 16826207019277679759366364941875454712698686874923936504354056115052203731250int);
    lemma_fundamental_div_mod_converse(16826207019277679759366364941875454712698686874923936504354056115052203731250int * 3, m, 2int, 6702135314154488833606283335111813960703438310176162187684092555866158776584int);
    assert(mod_pow(3, 15601200978167344944610978309nat, 21888242871839275222246405745257275088696311157297823662689037894645226208583nat) == 6702135314154488833606283335111813960703438310176162187684092555866158776584nat);
    lemma_fundamental_div_mod_converse(6702135314154488833606283335111813960703438310176162187684092555866158776584int * 6702135314154488833606283335111813960703438310176162187684092555866158776584int, m, 2052180160474533541665699158872529998318387686228270132076167534242902994092int, 13074458284346132549297385137704439763278751984664424492166245992051618017420int);
    assert(mod_pow(3, 31202401956334689889221956618nat, 21888242871839275222246405745257275088696311157297823662689037894645226208583nat) == 13074458284346132549297385137704439763278751984664424492166245992051618017420nat);
    lemma_fundamental_div_mod_converse(13074458284346132549297385137704439763278751984664424492166245992051618017420int * 13074458284346132549297385137704439763278751984664424492166245992051618017420int, m, 7809738791277536512374824155473151993294594079706068856501355706768638302998int, 9950349666383997213295666401508282716530279926909889205532172177300721224566int);
    assert(mod_pow(3, 62404803912669379778443913236nat, 21888242871839275222246405745257275088696311157297823662689037894645226208583nat) == 9950349666383997213295666401508282716530279926909889205532172177300721224566nat);
    lemma_fundamental_div_mod_converse(9950349666383997213295666401508282716530279926909889205532172177300721224566int * 9950349666383997213295666401508282716530279926909889205532172177300721224566int, m, 4523408254515056553721252491181109558894461936402885443788689467237654062837int, 19491608065656667770381125059669735466941967124194612629373584810811051158385int);
    lemma_fundamental_div_mod_converse(19491608065656667770381125059669735466941967124194612629373584810811051158385int * 3, m, 2int, 14698338453291452866650563688494656223433279057988190562742678643142701057989int);
    assert(mod_pow(3, 124809607825338759556887826473nat, 21888242871839275222246405745257275088696311157297823662689037894645226208583nat) == 14698338453291452866650563688494656223433279057988190562742678643142701057989nat);
    lemma_fundamental_div_mod_converse(14698338453291452866650563688494656223433279057988190562742678643142701057989int * 14698338453291452866650563688494656223433279057988190562742678643142701057989int, m, 9870191707597412085766627222311850037996775988363597227549977811779982544554int, 19585267738685255256623060527025763829537663654452006615410988732681646017139int);
    lemma_fundamental_div_mod_converse(19585267738685255256623060527025763829537663654452006615410988732681646017139int * 3, m, 2int, 14979317472377215325376370090562741311220368648760372520854890408754485634251int);
    assert(mod_pow(3, 249619215650677519113775652947nat, 21888242871839275222246405745257275088696311157297823662689037894645226208583nat) == 14979317472377215325376370090562741311220368648760372520854890408754485634251nat);
    lemma_fundamental_div_mod_converse(14979317472377215325376370090562741311220368648760372520854890408754485634251int * 14979317472377215325376370090562741311220368648760372520854890408754485634251int, m, 10251163295841600663083828669186064138746443515773002641198154392919892670184int, 17937581887272611953167634070208365390801999511415167660812542189019335341729int);
    assert(mod_pow(3, 499238431301355038227551305894nat, 21888242871839275222246405745257275088696311157297823662689037894645226208583nat) == 17937581887272611953167634070208365390801999511415167660812542189019335341729nat);
    lemma_fundamental_div_mod_converse(17937581887272611953167634070208365390801999511415167660812542189019335341729int * 17937581887272611953167634070208365390801999511415167660812542189019335341729int, m, 14699985094581197000573053524834236389453625398682777742651980929510166286489int, 12836385342029022955163374137221984052980847864052375915017278450611159974354int);
    lemma_fundamental_div_mod_converse(12836385342029022955163374137221984052980847864052375915017278450611159974354int * 3, m, 1int, 16620913154247793643243716666408677070246232434859304082362797457188253714479int);
    assert(mod_pow(3, 998476862602710076455102611789nat, 21888242871839275222246405745257275088696311157297823662689037894645226208583nat) == 16620913154247793643243716666408677070246232434859304082362797457188253714479nat);
    lemma_fundamental_div_mod_converse(16620913154247793643243716666408677070246232434859304082362797457188253714479int * 16620913154247793643243716666408677070246232434859304082362797457188253714479int, m, 12621148061019919414849692025763154032294602468095061175179915465669822386538int, 6459669211430352702023426557621467378903378754925575824228154864210414985787int);
    lemma_fundamental_div_mod_converse(6459669211430352702023426557621467378903378754925575824228154864210414985787int * 3, m, 0int, 19379007634291058106070279672864402136710136264776727472684464592631244957361int);
    assert(mod_pow(3, 1996953725205420152910205223579nat, 21888242871839275222246405745257275088696311157297823662689037894645226208583nat) == 19379007634291058106070279672864402136710136264776727472684464592631244957361nat);
    lemma_fundamental_div_mod_converse(19379007634291058106070279672864402136710136264776727472684464592631244957361int * 19379007634291058106070279672864402136710136264776727472684464592631244957361int, m, 17157427349870861583368454673040366878897989226686910979983199078697346862936int, 7621767904160721655692856676030313062172953130606467522662863920246460304633int);
    assert(mod_pow(3, 3993907450410840305820410447158nat, 21888242871839275222246405745257275088696311157297823662689037894645226208583nat) == 7621767904160721655692856676030313062172953130606467522662863920246460304633nat);
    lemma_fundamental_div_mod_converse(7621767904160721655692856676030313062172953130606467522662863920246460304633int * 7621767904160721655692856676030313062172953130606467522662863920246460304633int, m, 2653997688395216867471481032388221303284550840787222598872433216946471943011int, 4263044104777263225639952529320864784624223052237546148962309398618386201276int);
    lemma_fundamental_div_mod_converse(4263044104777263225639952529320864784624223052237546148962309398618386201276int * 3, m, 0int, 12789132314331789676919857587962594353872669156712638446886928195855158603828int);
    assert(mod_pow(3, 7987814900821680611640820894317nat, 21888242871839275222246405745257275088696311157297823662689037894645226208583nat) == 12789132314331789676919857587962594353872669156712638446886928195855158603828nat);
    lemma_fundamental_div_mod_converse(12789132314331789676919857587962594353872669156712638446886928195855158603828int * 12789132314331789676919857587962594353872669156712638446886928195855158603828int, m, 7472591852675355740541391385548731997455760298868709232845328900511297982289int, 9020746960953914986371858605601208860746828388918215191669831986584902467097int);
    lemma_fundamental_div_mod_converse(9020746960953914986371858605601208860746828388918215191669831986584902467097int * 3, m, 1int, 5173998011022469736869170071546351493544174009456821912320458065109481192708int);
    assert(mod_pow(3, 15975629801643361223281641788635nat, 21888242871839275222246405745257275088696311157297823662689037894645226208583nat) == 5173998011022469736869170071546351493544174009456821912320458065109481192708nat);
    lemma_fundamental_div_mod_converse(5173998011022469736869170071546351493544174009456821912320458065109481192708int * 5173998011022469736869170071546351493544174009456821912320458065109481192708int, m, 1223042688936270961398920280815127593408344516262909676383946293736018609488int, 21634266270598286275906459251763154148287134439697602544975643659292321537760int);
    lemma_fundamental_div_mod_converse(21634266270598286275906459251763154148287134439697602544975643659292321537760int * 3, m, 2int, 21126313068116308383226566264774912267468781004497160309548855188586512196114int);
    assert(mod_pow(3, 31951259603286722446563283577271nat, 21888242871839275222246405745257275088696311157297823662689037894645226208583nat) == 21126313068116308383226566264774912267468781004497160309548855188586512196114nat);
    lemma_fundamental_div_mod_converse(21126313068116308383226566264774912267468781004497160309548855188586512196114int * 21126313068116308383226566264774912267468781004497160309548855188586512196114int, m, 20390906043275159392107830198363671918790479108244238692760641493429655833521int, 17659400997091814009933537807798136685438624314057159212229051403143727390253int);
    lemma_fundamental_div_mod_converse(17659400997091814009933537807798136685438624314057159212229051403143727390253int * 3, m, 2int, 9201717247596891585307801932879859878923250627575830311309078420140729753593int);
    assert(mod_pow(3, 63902519206573444893126567154543nat, 21888242871839275222246405745257275088696311157297823662689037894645226208583nat) == 9201717247596891585307801932879859878923250627575830311309078420140729753593nat);
    lemma_fundamental_div_mod_converse(9201717247596891585307801932879859878923250627575830311309078420140729753593int * 9201717247596891585307801932879859878923250627575830311309078420140729753593int, m, 3868359867920596393847922135955676274057876409198557950592677489717335571564int, 16523117111321913037111352011254149747677405193493535298281144241387508875837int);
    assert(mod_pow(3, 127805038413146889786253134309086nat, 21888242871839275222246405745257275088696311157297823662689037894645226208583nat) == 16523117111321913037111352011254149747677405193493535298281144241387508875837nat);
    lemma_fundamental_div_mod_converse(16523117111321913037111352011254149747677405193493535298281144241387508875837int * 16523117111321913037111352011254149747677405193493535298281144241387508875837int, m, 12473061482048403779207201568144275325369124676704754701065019399560660268210int, 499919017450745572263247073468577789022907389221166735314787769189298404139int);
    lemma_fundamental_div_mod_converse(499919017450745572263247073468577789022907389221166735314787769189298404139int * 3, m, 0int, 1499757052352236716789741220405733367068722167663500205944363307567895212417int);
    assert(mod_pow(3, 255610076826293779572506268618173nat, 21888242871839275222246405745257275088696311157297823662689037894645226208583nat) == 1499757052352236716789741220405733367068722167663500205944363307567895212417nat);
    lemma_fundamental_div_mod_converse(1499757052352236716789741220405733367068722167663500205944363307567895212417int * 1499757052352236716789741220405733367068722167663500205944363307567895212417int, m, 102761616327554154618729842916055252766914045563500648568211495561849177203int, 6670471148130050815996685255785286652310378862431250017440131854979744448540int);
    assert(mod_pow(3, 511220153652587559145012537236346nat, 21888242871839275222246405745257275088696311157297823662689037894645226208583nat) == 6670471148130050815996685255785286652310378862431250017440131854979744448540nat);
    lemma_fundamental_div_mod_converse(6670471148130050815996685255785286652310378862431250017440131854979744448540int * 6670471148130050815996685255785286652310378862431250017440131854979744448540int, m, 2032834960693968915269795787645064599939032975416040749116540987604811295565int, 1606866382762686385884376835349905543909419078443261846844840088371555297205int);
    assert(mod_pow(3, 1022440307305175118290025074472692nat, 21888242871839275222246405745257275088696311157297823662689037894645226208583nat) == 1606866382762686385884376835349905543909419078443261846844840088371555297205nat);
    lemma_fundamental_div_mod_converse(1606866382762686385884376835349905543909419078443261846844840088371555297205int * 1606866382762686385884376835349905543909419078443261846844840088371555297205int, m, 117963766537641325004153524612711229248942327947110818319196458037604489576int, 18469289267129335601562758717353402330222834263298056052011852768274455581217int);
    lemma_fundamental_div_mod_converse(18469289267129335601562758717353402330222834263298056052011852768274455581217int * 3, m, 2int, 11631382057709456360195464661545656813275880475298520830657482515532914326485int);
    assert(mod_pow(3, 2044880614610350236580050148945385nat, 21888242871839275222246405745257275088696311157297823662689037894645226208583nat) == 11631382057709456360195464661545656813275880475298520830657482515532914326485nat);
    lemma_fundamental_div_mod_converse(11631382057709456360195464661545656813275880475298520830657482515532914326485int * 11631382057709456360195464661545656813275880475298520830657482515532914326485int, m, 6180900374897799655819718096387983795892075782753564339592339449083010796557int, 17677021591382159582235525397066790797942178044937112961903735664033312206494int);
    assert(mod_pow(3, 4089761229220700473160100297890770nat, 21888242871839275222246405745257275088696311157297823662689037894645226208583nat) == 17677021591382159582235525397066790797942178044937112961903735664033312206494nat);
    lemma_fundamental_div_mod_converse(17677021591382159582235525397066790797942178044937112961903735664033312206494int * 17677021591382159582235525397066790797942178044937112961903735664033312206494int, m, 14276024538461890680224403730016320369912552281072593594367420689696641049407int, 14913658801176492806448350638256181331179822790183499718166241536337905311755int);
    lemma_fundamental_div_mod_converse(14913658801176492806448350638256181331179822790183499718166241536337905311755int * 3, m, 2int, 964490659850927974852240424253993816146846055954851829120648819723263518099int);
    assert(mod_pow(3, 8179522458441400946320200595781541nat, 21888242871839275222246405745257275088696311157297823662689037894645226208583nat) == 964490659850927974852240424253993816146846055954851829120648819723263518099nat);
    lemma_fundamental_div_mod_converse(964490659850927974852240424253993816146846055954851829120648819723263518099int * 964490659850927974852240424253993816146846055954851829120648819723263518099int, m, 42499630435684668139039156202143879436295727664905493353670258215891225709int, 21761759746339166856411042708306043175417250779791466164150948484387734513454int);
    assert(mod_pow(3, 16359044916882801892640401191563082nat, 21888242871839275222246405745257275088696311157297823662689037894645226208583nat) == 21761759746339166856411042708306043175417250779791466164150948484387734513454nat);
    lemma_fundamental_div_mod_converse(21761759746339166856411042708306043175417250779791466164150948484387734513454int * 21761759746339166856411042708306043175417250779791466164150948484387734513454int, m, 21636007514640353918557665148739260551524249790204504997980215119625309543351int, 18691846903375965241654471157949540476166819360669468369810845377277300228483int);
    assert(mod_pow(3, 32718089833765603785280802383126164nat, 21888242871839275222246405745257275088696311157297823662689037894645226208583nat) == 18691846903375965241654471157949540476166819360669468369810845377277300228483nat);
    lemma_fundamental_div_mod_converse(18691846903375965241654471157949540476166819360669468369810845377277300228483int * 18691846903375965241654471157949540476166819360669468369810845377277300228483int, m, 15962228795841515119702777503106261947459001473063683309735416871236570016477int, 16338514210539803345607591287884150762493171049554314730062204871851455659198int);
    assert(mod_pow(3, 65436179667531207570561604766252328nat, 21888242871839275222246405745257275088696311157297823662689037894645226208583nat) == 16338514210539803345607591287884150762493171049554314730062204871851455659198nat);
    lemma_fundamental_div_mod_converse(16338514210539803345607591287884150762493171049554314730062204871851455659198int * 16338514210539803345607591287884150762493171049554314730062204871851455659198int, m, 12195910296274022371775935054650575530019159708014896559789544347541906219278int, 13041682173736795133900463738658005666713412816913027807821900391008958340130int);
    lemma_fundamental_div_mod_converse(13041682173736795133900463738658005666713412816913027807821900391008958340130int * 3, m, 1int, 17236803649371110179454985470716741911443927293441259760776663278381648811807int);
    assert(mod_pow(3, 130872359335062415141123209532504657nat, 21888242871839275222246405745257275088696311157297823662689037894645226208583nat) == 17236803649371110179454985470716741911443927293441259760776663278381648811807nat);
    lemma_fundamental_div_mod_converse(17236803649371110179454985470716741911443927293441259760776663278381648811807int * 17236803649371110179454985470716741911443927293441259760776663278381648811807int, m, 13573835130878516387956935453410660972553268988918145014910901107234312695272int, 5653859258318745169605768173920093860477934954675658102780331703478512685673int);
    lemma_fundamental_div_mod_converse(5653859258318745169605768173920093860477934954675658102780331703478512685673int * 3, m, 0int, 16961577774956235508817304521760281581433804864026974308340995110435538057019int);
    assert(mod_pow(3, 261744718670124830282246419065009315nat, 21888242871839275222246405745257275088696311157297823662689037894645226208583nat) == 16961577774956235508817304521760281581433804864026974308340995110435538057019nat);
    lemma_fundamental_div_mod_converse(16961577774956235508817304521760281581433804864026974308340995110435538057019int * 16961577774956235508817304521760281581433804864026974308340995110435538057019int, m, 13143819826032212646558258019716061813378797635653779994542740360217489174513int, 19152800775386589833143698129824923338497098500343288468115532311016269721282int);
    lemma_fundamental_div_mod_converse(19152800775386589833143698129824923338497098500343288468115532311016269721282int * 3, m, 2int, 13681916582481219054938282898960219838098673186434218078968521143758356746680int);
    assert(mod_pow(3, 523489437340249660564492838130018631nat, 21888242871839275222246405745257275088696311157297823662689037894645226208583nat) == 13681916582481219054938282898960219838098673186434218078968521143758356746680nat);
    lemma_fundamental_div_mod_converse(13681916582481219054938282898960219838098673186434218078968521143758356746680int * 13681916582481219054938282898960219838098673186434218078968521143758356746680int, m, 8552300998579175823034927058304720872296061481909615321241591755902445660236int, 3793156842781413990659017754449816164405057379444133608357457759817206016812int);
    lemma_fundamental_div_mod_converse(3793156842781413990659017754449816164405057379444133608357457759817206016812int * 3, m, 0int, 11379470528344241971977053263349448493215172138332400825072373279451618050436int);
    assert(mod_pow(3, 1046978874680499321128985676260037263nat, 21888242871839275222246405745257275088696311157297823662689037894645226208583nat) == 11379470528344241971977053263349448493215172138332400825072373279451618050436nat);
    lemma_fundamental_div_mod_converse(11379470528344241971977053263349448493215172138332400825072373279451618050436int * 11379470528344241971977053263349448493215172138332400825072373279451618050436int, m, 5916068743556202274550881443351897493490371797360754136380314529632820450394int, 8056524993882164484413828606672151444443959377283548375615290203106391258394int);
    lemma_fundamental_div_mod_converse(8056524993882164484413828606672151444443959377283548375615290203106391258394int * 3, m, 1int, 2281332109807218230995080074759179244635566974552821464156832714673947566599int);
    assert(mod_pow(3, 2093957749360998642257971352520074527nat, 21888242871839275222246405745257275088696311157297823662689037894645226208583nat) == 2281332109807218230995080074759179244635566974552821464156832714673947566599nat);
    lemma_fundamental_div_mod_converse(2281332109807218230995080074759179244635566974552821464156832714673947566599int * 2281332109807218230995080074759179244635566974552821464156832714673947566599int, m, 237774965569911917634294801078167048169983547301211771928717441509927062439int, 20160342994668723424539925224422376704177939583305591315109797176330861712864int);
    assert(mod_pow(3, 4187915498721997284515942705040149054nat, 21888242871839275222246405745257275088696311157297823662689037894645226208583nat) == 20160342994668723424539925224422376704177939583305591315109797176330861712864nat);
    lemma_fundamental_div_mod_converse(20160342994668723424539925224422376704177939583305591315109797176330861712864int * 20160342994668723424539925224422376704177939583305591315109797176330861712864int, m, 18568846848167993273761489137450359309709841685594645775851250951647700189373int, 10572046264829416948478419412648586473820049604368068603160266784668085094037int);
    lemma_fundamental_div_mod_converse(10572046264829416948478419412648586473820049604368068603160266784668085094037int * 3, m, 1int, 9827895922648975623188852492688484332763837655806382146791762459359029073528int);
    assert(mod_pow(3, 8375830997443994569031885410080298109nat, 21888242871839275222246405745257275088696311157297823662689037894645226208583nat) == 9827895922648975623188852492688484332763837655806382146791762459359029073528nat);
    lemma_fundamental_div_mod_converse(9827895922648975623188852492688484332763837655806382146791762459359029073528int * 9827895922648975623188852492688484332763837655806382146791762459359029073528int, m, 4412758887589229393540668044362220364821739663542853119651440435388781671063int, 5681736964713998872139221100465519757515263014715178341331407828831497033055int);
    lemma_fundamental_div_mod_converse(5681736964713998872139221100465519757515263014715178341331407828831497033055int * 3, m, 0int, 17045210894141996616417663301396559272545789044145535023994223486494491099165int);
    assert(mod_pow(3, 16751661994887989138063770820160596219nat, 21888242871839275222246405745257275088696311157297823662689037894645226208583nat) == 17045210894141996616417663301396559272545789044145535023994223486494491099165nat);
    lemma_fundamental_div_mod_converse(17045210894141996616417663301396559272545789044145535023994223486494491099165int * 17045210894141996616417663301396559272545789044145535023994223486494491099165int, m, 13273756880666543501554011964127726468015953537715557602580383858923384667681int, 9694288521936577698159682963067787773618137646555915275405080313924818791202int);
    assert(mod_pow(3, 33503323989775978276127541640321192438nat, 21888242871839275222246405745257275088696311157297823662689037894645226208583nat) == 9694288521936577698159682963067787773618137646555915275405080313924818791202nat);
    lemma_fundamental_div_mod_converse(9694288521936577698159682963067787773618137646555915275405080313924818791202int * 9694288521936577698159682963067787773618137646555915275405080313924818791202int, m, 4293594076821122877945487199743911578801946888076944098897632298532032437528int, 14271331479899407662887652842806736029720182767063774124618836736965227701980int);
    lemma_fundamental_div_mod_converse(14271331479899407662887652842806736029720182767063774124618836736965227701980int * 3, m, 1int, 20925751567858947766416552783162933000464237143893498711167472316250456897357int);
    assert(mod_pow(3, 67006647979551956552255083280642384877nat, 21888242871839275222246405745257275088696311157297823662689037894645226208583nat) == 20925751567858947766416552783162933000464237143893498711167472316250456897357nat);
    lemma_fundamental_div_mod_converse(20925751567858947766416552783162933000464237143893498711167472316250456897357int * 20925751567858947766416552783162933000464237143893498711167472316250456897357int, m, 20005583876407135092128781978199957513780695165110166662872196582888174802910int, 16004714885665874201960689140305685462567853523052848650873999571122258208919int);
    lemma_fundamental_div_mod_converse(16004714885665874201960689140305685462567853523052848650873999571122258208919int * 3, m, 2int, 4237658913319072161389255930402506210310938254562898627243922924076322209591int);
    assert(mod_pow(3, 134013295959103913104510166561284769755nat, 21888242871839275222246405745257275088696311157297823662689037894645226208583nat) == 4237658913319072161389255930402506210310938254562898627243922924076322209591nat);
    lemma_fundamental_div_mod_converse(4237658913319072161389255930402506210310938254562898627243922924076322209591int * 4237658913319072161389255930402506210310938254562898627243922924076322209591int, m, 820429176100584107375389304833667080482236349230389960709059574756808211656int, 1615006088751454405581080785285506011496803653782967825814098707571064543833int);
    lemma_fundamental_div_mod_converse(1615006088751454405581080785285506011496803653782967825814098707571064543833int * 3, m, 0int, 4845018266254363216743242355856518034490410961348903477442296122713193631499int);
    assert(mod_pow(3, 268026591918207826209020333122569539511nat, 21888242871839275222246405745257275088696311157297823662689037894645226208583nat) == 4845018266254363216743242355856518034490410961348903477442296122713193631499nat);
    lemma_fundamental_div_mod_converse(4845018266254363216743242355856518034490410961348903477442296122713193631499int * 4845018266254363216743242355856518034490410961348903477442296122713193631499int, m, 1072457124027054977737422668835948002814901971426232085323145960253181133966int, 5372313901403955252919710011301044133143602334634516300317264329104622956823int);
    assert(mod_pow(3, 536053183836415652418040666245139079022nat, 21888242871839275222246405745257275088696311157297823662689037894645226208583nat) == 5372313901403955252919710011301044133143602334634516300317264329104622956823nat);
    lemma_fundamental_div_mod_converse(5372313901403955252919710011301044133143602334634516300317264329104622956823int * 5372313901403955252919710011301044133143602334634516300317264329104622956823int, m, 1318596326996664263989782462584122791495075502129619576196243389169309336617int, 749437308267739311568104274629709718848009734039590247529702900297520669618int);
    lemma_fundamental_div_mod_converse(749437308267739311568104274629709718848009734039590247529702900297520669618int * 3, m, 0int, 2248311924803217934704312823889129156544029202118770742589108700892562008854int);
    assert(mod_pow(3, 1072106367672831304836081332490278158045nat, 21888242871839275222246405745257275088696311157297823662689037894645226208583nat) == 2248311924803217934704312823889129156544029202118770742589108700892562008854nat);
    lemma_fundamental_div_mod_converse(2248311924803217934704312823889129156544029202118770742589108700892562008854int * 2248311924803217934704312823889129156544029202118770742589108700892562008854int, m, 230941631121785221541193998815892663574067109256832787433981719230055912382int, 14154217761405273436513609333124628792895886288555389175320997456147270018610int);
    lemma_fundamental_div_mod_converse(14154217761405273436513609333124628792895886288555389175320997456147270018610int * 3, m, 1int, 20574410412376545087294422254116611289991347708368343863273954473796583847247int);
    assert(mod_pow(3, 2144212735345662609672162664980556316091nat, 21888242871839275222246405745257275088696311157297823662689037894645226208583nat) == 20574410412376545087294422254116611289991347708368343863273954473796583847247nat);
    lemma_fundamental_div_mod_converse(20574410412376545087294422254116611289991347708368343863273954473796583847247int * 20574410412376545087294422254116611289991347708368343863273954473796583847247int, m, 19339440186928894531470569949514836053659674622436625816252330075817574016275int, 19139498543056137287403359727115720619001908153668751829792656024737642790684int);
    lemma_fundamental_div_mod_converse(19139498543056137287403359727115720619001908153668751829792656024737642790684int * 3, m, 2int, 13642009885489861417717267690832611679613102146410608163999892284922475954886int);
    assert(mod_pow(3, 4288425470691325219344325329961112632183nat, 21888242871839275222246405745257275088696311157297823662689037894645226208583nat) == 13642009885489861417717267690832611679613102146410608163999892284922475954886nat);
    lemma_fundamental_div_mod_converse(13642009885489861417717267690832611679613102146410608163999892284922475954886int * 13642009885489861417717267690832611679613102146410608163999892284922475954886int, m, 8502483950195893169640029442357115446887460773283924584868326179375494682259int, 16636222438266208294597307275352691917766951640361288085295959510784663643999int);
    assert(mod_pow(3, 8576850941382650438688650659922225264366nat, 21888242871839275222246405745257275088696311157297823662689037894645226208583nat) == 16636222438266208294597307275352691917766951640361288085295959510784663643999nat);
    lemma_fundamental_div_mod_converse(16636222438266208294597307275352691917766951640361288085295959510784663643999int * 16636222438266208294597307275352691917766951640361288085295959510784663643999int, m, 12644409084639123264729639146080037420868470697551480541878509356271381185982int, 8657099125628202397524802900012752192580405382778904132279137025865561028495int);
    lemma_fundamental_div_mod_converse(8657099125628202397524802900012752192580405382778904132279137025865561028495int * 3, m, 1int, 4083054505045331970328002954780981489044904991038888734148373182951456876902int);
    assert(mod_pow(3, 17153701882765300877377301319844450528733nat, 21888242871839275222246405745257275088696311157297823662689037894645226208583nat) == 4083054505045331970328002954780981489044904991038888734148373182951456876902nat);
    lemma_fundamental_div_mod_converse(4083054505045331970328002954780981489044904991038888734148373182951456876902int * 4083054505045331970328002954780981489044904991038888734148373182951456876902int, m, 761657031529917592256499195371618388922369179958961828409923392371394718157int, 4675739373934747937141994535382947303628552263118338395834952153914601776073int);
    lemma_fundamental_div_mod_converse(4675739373934747937141994535382947303628552263118338395834952153914601776073int * 3, m, 0int, 14027218121804243811425983606148841910885656789355015187504856461743805328219int);
    assert(mod_pow(3, 34307403765530601754754602639688901057467nat, 21888242871839275222246405745257275088696311157297823662689037894645226208583nat) == 14027218121804243811425983606148841910885656789355015187504856461743805328219nat);
    lemma_fundamental_div_mod_converse(14027218121804243811425983606148841910885656789355015187504856461743805328219int * 14027218121804243811425983606148841910885656789355015187504856461743805328219int, m, 8989430964777089013391006579100686349670365683942829316661931510310678368821int, 6536865059926906768856162719305898519894028165158967381266832897849567921318int);
    assert(mod_pow(3, 68614807531061203509509205279377802114934nat, 21888242871839275222246405745257275088696311157297823662689037894645226208583nat) == 6536865059926906768856162719305898519894028165158967381266832897849567921318nat);
    lemma_fundamental_div_mod_converse(6536865059926906768856162719305898519894028165158967381266832897849567921318int * 6536865059926906768856162719305898519894028165158967381266832897849567921318int, m, 1952217227389643710018450017106629112165847397831128754553711243073786001132int, 11697942192668508209623353222180075284463245988717125513911892990686132741168int);
    lemma_fundamental_div_mod_converse(11697942192668508209623353222180075284463245988717125513911892990686132741168int * 3, m, 1int, 13205583706166249406623653921282950764693426808853552879046641077413172014921int);
    assert(mod_pow(3, 137229615062122407019018410558755604229869nat, 21888242871839275222246405745257275088696311157297823662689037894645226208583nat) == 13205583706166249406623653921282950764693426808853552879046641077413172014921nat);
    lemma_fundamental_div_mod_converse(13205583706166249406623653921282950764693426808853552879046641077413172014921int * 13205583706166249406623653921282950764693426808853552879046641077413172014921int, m, 7967174068820523348405488312983990289894642768717808602468003090211652215117int, 3472737784596091864666428817585842862212655541185474326017412381743618887030int);
    assert(mod_pow(3, 274459230124244814038036821117511208459738nat, 21888242871839275222246405745257275088696311157297823662689037894645226208583nat) == 3472737784596091864666428817585842862212655541185474326017412381743618887030nat);
    lemma_fundamental_div_mod_converse(3472737784596091864666428817585842862212655541185474326017412381743618887030int * 3472737784596091864666428817585842862212655541185474326017412381743618887030int, m, 550976512421527909121876170623982341733592203212283100204151976845663260350int, 12632464562928449869770089175621954274986780855565264932904273886166968636850int);
    assert(mod_pow(3, 548918460248489628076073642235022416919476nat, 21888242871839275222246405745257275088696311157297823662689037894645226208583nat) == 12632464562928449869770089175621954274986780855565264932904273886166968636850nat);
    lemma_fundamental_div_mod_converse(12632464562928449869770089175621954274986780855565264932904273886166968636850int * 12632464562928449869770089175621954274986780855565264932904273886166968636850int, m, 7290633691704536084406274598536046969223594235346194335674555938747045779668int, 21268111734206523879311644998350741136410716290777165496893652792432349432056int);
    assert(mod_pow(3, 1097836920496979256152147284470044833838952nat, 21888242871839275222246405745257275088696311157297823662689037894645226208583nat) == 21268111734206523879311644998350741136410716290777165496893652792432349432056nat);
    lemma_fundamental_div_mod_converse(21268111734206523879311644998350741136410716290777165496893652792432349432056int * 21268111734206523879311644998350741136410716290777165496893652792432349432056int, m, 20665549966125882933020043729308564233858207210988984145140217752997596540322int, 9539245108374092333814643970173621278070283154748005845019671411663818403410int);
    assert(mod_pow(3, 2195673840993958512304294568940089667677904nat, 21888242871839275222246405745257275088696311157297823662689037894645226208583nat) == 9539245108374092333814643970173621278070283154748005845019671411663818403410nat);
    lemma_fundamental_div_mod_converse(9539245108374092333814643970173621278070283154748005845019671411663818403410int * 9539245108374092333814643970173621278070283154748005845019671411663818403410int, m, 4157355059081201087040681242206735428810825791996410643178095506523924649418int, 14537687551423919147163044793136776128520249538949006551570806908647882073406int);
    lemma_fundamental_div_mod_converse(14537687551423919147163044793136776128520249538949006551570806908647882073406int * 3, m, 1int, 21724819782432482219242728634153053296864437459549195992023382831298420011635int);
    assert(mod_pow(3, 4391347681987917024608589137880179335355809nat, 21888242871839275222246405745257275088696311157297823662689037894645226208583nat) == 21724819782432482219242728634153053296864437459549195992023382831298420011635nat);
    lemma_fundamental_div_mod_converse(21724819782432482219242728634153053296864437459549195992023382831298420011635int * 21724819782432482219242728634153053296864437459549195992023382831298420011635int, m, 21562616850637592416661259101941549046590880055128457028662402782045654723409int, 15116405398677334498040403982543056972826761693176751162174018073138928553778int);
    assert(mod_pow(3, 8782695363975834049217178275760358670711618nat, 21888242871839275222246405745257275088696311157297823662689037894645226208583nat) == 15116405398677334498040403982543056972826761693176751162174018073138928553778nat);
    lemma_fundamental_div_mod_converse(15116405398677334498040403982543056972826761693176751162174018073138928553778int * 15116405398677334498040403982543056972826761693176751162174018073138928553778int, m, 10439655367272515314679615951691837559834851802184132395627423359162636744035int, 2740800429120654125336127407575235400848669420390944256738560325859747020879int);
    assert(mod_pow(3, 17565390727951668098434356551520717341423236nat, 21888242871839275222246405745257275088696311157297823662689037894645226208583nat) == 2740800429120654125336127407575235400848669420390944256738560325859747020879nat);
    lemma_fundamental_div_mod_converse(2740800429120654125336127407575235400848669420390944256738560325859747020879int * 2740800429120654125336127407575235400848669420390944256738560325859747020879int, m, 343197351941514134533710362362963487407991158111341378494181842286017757817int, 11798900458410560127041776897203742381516357366478334933919970512642041189330int);
    assert(mod_pow(3, 35130781455903336196868713103041434682846472nat, 21888242871839275222246405745257275088696311157297823662689037894645226208583nat) == 11798900458410560127041776897203742381516357366478334933919970512642041189330nat);
    lemma_fundamental_div_mod_converse(11798900458410560127041776897203742381516357366478334933919970512642041189330int * 11798900458410560127041776897203742381516357366478334933919970512642041189330int, m, 6360220545916426495135170593714957115582595604640194139208890535277394360380int, 20005864495535449850697636673901297900774603532274226971616149660987154707360int);
    lemma_fundamental_div_mod_converse(20005864495535449850697636673901297900774603532274226971616149660987154707360int * 3, m, 2int, 16241107742927799107600098531189343524931188282227033589470373193671011704914int);
    assert(mod_pow(3, 70261562911806672393737426206082869365692945nat, 21888242871839275222246405745257275088696311157297823662689037894645226208583nat) == 16241107742927799107600098531189343524931188282227033589470373193671011704914nat);
    lemma_fundamental_div_mod_converse(16241107742927799107600098531189343524931188282227033589470373193671011704914int * 16241107742927799107600098531189343524931188282227033589470373193671011704914int, m, 12050925342058959925868173495787676322666148402459452573235897932859210586504int, 9757603893427399499871196005360961728324016570781316938264126899241342983564int);
    lemma_fundamental_div_mod_converse(9757603893427399499871196005360961728324016570781316938264126899241342983564int * 3, m, 1int, 7384568808442923277367182270825610096275738555046127152103342803078802742109int);
    assert(mod_pow(3, 140523125823613344787474852412165738731385891nat, 21888242871839275222246405745257275088696311157297823662689037894645226208583nat) == 7384568808442923277367182270825610096275738555046127152103342803078802742109nat);
    lemma_fundamental_div_mod_converse(7384568808442923277367182270825610096275738555046127152103342803078802742109int * 7384568808442923277367182270825610096275738555046127152103342803078802742109int, m, 2491376617388831469015698681206831103711720173438219098402480301776421476996int, 13891345095473288982998227963125830013416686395941138653234859446355529511213int);
    lemma_fundamental_div_mod_converse(13891345095473288982998227963125830013416686395941138653234859446355529511213int * 3, m, 1int, 19785792414580591726748278144120214951553748030525592297015540444421362325056int);
    assert(mod_pow(3, 281046251647226689574949704824331477462771783nat, 21888242871839275222246405745257275088696311157297823662689037894645226208583nat) == 19785792414580591726748278144120214951553748030525592297015540444421362325056nat);
    lemma_fundamental_div_mod_converse(19785792414580591726748278144120214951553748030525592297015540444421362325056int * 19785792414580591726748278144120214951553748030525592297015540444421362325056int, m, 17885290462330241430281954659554236100965252675836180533553552745125482086566int, 15343463294229779519438510529850008254970139365363917592842465405534227207158int);
    lemma_fundamental_div_mod_converse(15343463294229779519438510529850008254970139365363917592842465405534227207158int * 3, m, 2int, 2253904139010788113822720099035474587517795781496105453149320427312229204308int);
    assert(mod_pow(3, 562092503294453379149899409648662954925543567nat, 21888242871839275222246405745257275088696311157297823662689037894645226208583nat) == 2253904139010788113822720099035474587517795781496105453149320427312229204308nat);
    lemma_fundamental_div_mod_converse(2253904139010788113822720099035474587517795781496105453149320427312229204308int * 2253904139010788113822720099035474587517795781496105453149320427312229204308int, m, 232091899637400230907937219156256846559246840376382047590308521392749941809int, 6493662231529189229879039076692152230598784205847818479591973191191859412217int);
    assert(mod_pow(3, 1124185006588906758299798819297325909851087134nat, 21888242871839275222246405745257275088696311157297823662689037894645226208583nat) == 6493662231529189229879039076692152230598784205847818479591973191191859412217nat);
    lemma_fundamental_div_mod_converse(6493662231529189229879039076692152230598784205847818479591973191191859412217int * 6493662231529189229879039076692152230598784205847818479591973191191859412217int, m, 1926497682983964904145250329725248137023877425320740891758909530029882891219int, 9685797596158043281496778813650942282724343067733579287915209571519135722412int);
    assert(mod_pow(3, 2248370013177813516599597638594651819702174268nat, 21888242871839275222246405745257275088696311157297823662689037894645226208583nat) == 9685797596158043281496778813650942282724343067733579287915209571519135722412nat);
    lemma_fundamental_div_mod_converse(9685797596158043281496778813650942282724343067733579287915209571519135722412int * 9685797596158043281496778813650942282724343067733579287915209571519135722412int, m, 4286076119634068007784807530992321527102576949893055213963188665860967694594int, 9380685108024823616709787570792459727714313411748140840749930761896233597442int);
    assert(mod_pow(3, 4496740026355627033199195277189303639404348536nat, 21888242871839275222246405745257275088696311157297823662689037894645226208583nat) == 9380685108024823616709787570792459727714313411748140840749930761896233597442nat);
    lemma_fundamental_div_mod_converse(9380685108024823616709787570792459727714313411748140840749930761896233597442int * 9380685108024823616709787570792459727714313411748140840749930761896233597442int, m, 4020297728381531921905587041488188364420024444017142754719112132406931627375int, 7322244408675546693319993259829497321544812744180552790704559618147526183739int);
    assert(mod_pow(3, 8993480052711254066398390554378607278808697072nat, 21888242871839275222246405745257275088696311157297823662689037894645226208583nat) == 7322244408675546693319993259829497321544812744180552790704559618147526183739nat);
    lemma_fundamental_div_mod_converse(7322244408675546693319993259829497321544812744180552790704559618147526183739int * 7322244408675546693319993259829497321544812744180552790704559618147526183739int, m, 2449500560383493258080553341335572084760296970774871824899115074664203634156int, 14464901728181667227852016808473194462231621432675966326657498093067308859173int);
    assert(mod_pow(3, 17986960105422508132796781108757214557617394144nat, 21888242871839275222246405745257275088696311157297823662689037894645226208583nat) == 14464901728181667227852016808473194462231621432675966326657498093067308859173nat);
    lemma_fundamental_div_mod_converse(14464901728181667227852016808473194462231621432675966326657498093067308859173int * 14464901728181667227852016808473194462231621432675966326657498093067308859173int, m, 9559167596552305757312205659108414151959256860817682222608179086797418785298int, 2041100329484022971359279602016473592595994932021195423494719660480904431195int);
    assert(mod_pow(3, 35973920210845016265593562217514429115234788288nat, 21888242871839275222246405745257275088696311157297823662689037894645226208583nat) == 2041100329484022971359279602016473592595994932021195423494719660480904431195nat);
    lemma_fundamental_div_mod_converse(2041100329484022971359279602016473592595994932021195423494719660480904431195int * 2041100329484022971359279602016473592595994932021195423494719660480904431195int, m, 190334627562989452930542171555577536247728571249862168071276953232987635792int, 9084320409918082471529611150594392082079149381197846151809540807197460725289int);
    lemma_fundamental_div_mod_converse(9084320409918082471529611150594392082079149381197846151809540807197460725289int * 3, m, 1int, 5364718357914972192342427706525901157541136986295714792739584526947155967284int);
    assert(mod_pow(3, 71947840421690032531187124435028858230469576577nat, 21888242871839275222246405745257275088696311157297823662689037894645226208583nat) == 5364718357914972192342427706525901157541136986295714792739584526947155967284nat);
    lemma_fundamental_div_mod_converse(5364718357914972192342427706525901157541136986295714792739584526947155967284int * 5364718357914972192342427706525901157541136986295714792739584526947155967284int, m, 1314870418254432823820587531574950184704471153038060528432066092012086983702int, 20963377883223321391921875152731639754686692534172128227650811238443704822390int);
    assert(mod_pow(3, 143895680843380065062374248870057716460939153154nat, 21888242871839275222246405745257275088696311157297823662689037894645226208583nat) == 20963377883223321391921875152731639754686692534172128227650811238443704822390nat);
    lemma_fundamental_div_mod_converse(20963377883223321391921875152731639754686692534172128227650811238443704822390int * 20963377883223321391921875152731639754686692534172128227650811238443704822390int, m, 20077592104947640571592453477245714099965928058264869945268311021157781908322int, 18126985469277918543825705383587509247268361772897174966125337451546889784374int);
    lemma_fundamental_div_mod_converse(18126985469277918543825705383587509247268361772897174966125337451546889784374int * 3, m, 2int, 10604470664155205186984304660247977564412463004095877572997936565350216935956int);
    assert(mod_pow(3, 287791361686760130124748497740115432921878306309nat, 21888242871839275222246405745257275088696311157297823662689037894645226208583nat) == 10604470664155205186984304660247977564412463004095877572997936565350216935956nat);
    lemma_fundamental_div_mod_converse(10604470664155205186984304660247977564412463004095877572997936565350216935956int * 10604470664155205186984304660247977564412463004095877572997936565350216935956int, m, 5137680476472103866068863061933551898968071625095890261261559787653740939523int, 2287323782228330734157589163639869768962112048558563247056040323495419108027int);
    assert(mod_pow(3, 575582723373520260249496995480230865843756612618nat, 21888242871839275222246405745257275088696311157297823662689037894645226208583nat) == 2287323782228330734157589163639869768962112048558563247056040323495419108027nat);
    lemma_fundamental_div_mod_converse(2287323782228330734157589163639869768962112048558563247056040323495419108027int * 2287323782228330734157589163639869768962112048558563247056040323495419108027int, m, 239025586264781898527643102162075394905885400899899133406261260869127528198int, 13849159033579000298239658394082066233695741623446855945138248653958333709295int);
    assert(mod_pow(3, 1151165446747040520498993990960461731687513225236nat, 21888242871839275222246405745257275088696311157297823662689037894645226208583nat) == 13849159033579000298239658394082066233695741623446855945138248653958333709295nat);
    lemma_fundamental_div_mod_converse(13849159033579000298239658394082066233695741623446855945138248653958333709295int * 13849159033579000298239658394082066233695741623446855945138248653958333709295int, m, 8762658887713899354092681202014940664282779607099104303052505231607501272481int, 3940293636041950558678698304493969142695079514441375352949422201849945492602int);
    assert(mod_pow(3, 2302330893494081040997987981920923463375026450472nat, 21888242871839275222246405745257275088696311157297823662689037894645226208583nat) == 3940293636041950558678698304493969142695079514441375352949422201849945492602nat);
    lemma_fundamental_div_mod_converse(3940293636041950558678698304493969142695079514441375352949422201849945492602int * 3940293636041950558678698304493969142695079514441375352949422201849945492602int, m, 709326647604401723607177561242860388564776913061432072152243300732465848041int, 17747621086302967869817557772111734601048160995638620969982382796430188794501int);
    lemma_fundamental_div_mod_converse(17747621086302967869817557772111734601048160995638620969982382796430188794501int * 3, m, 2int, 9466377515230353164959861825820653625751860672320215584569072600000113966337int);
    assert(mod_pow(3, 4604661786988162081995975963841846926750052900945nat, 21888242871839275222246405745257275088696311157297823662689037894645226208583nat) == 9466377515230353164959861825820653625751860672320215584569072600000113966337nat);
    lemma_fundamental_div_mod_converse(9466377515230353164959861825820653625751860672320215584569072600000113966337int * 9466377515230353164959861825820653625751860672320215584569072600000113966337int, m, 4094083923755760489186402794314935905133021412525007423566190910607335724288int, 12436766893323349080350107487777066736276274677969404590722468666969502033665int);
    lemma_fundamental_div_mod_converse(12436766893323349080350107487777066736276274677969404590722468666969502033665int * 3, m, 1int, 15422057808130772018803916718073925120132512876610390109478368106263279892412int);
    assert(mod_pow(3, 9209323573976324163991951927683693853500105801891nat, 21888242871839275222246405745257275088696311157297823662689037894645226208583nat) == 15422057808130772018803916718073925120132512876610390109478368106263279892412nat);
    lemma_fundamental_div_mod_converse(15422057808130772018803916718073925120132512876610390109478368106263279892412int * 15422057808130772018803916718073925120132512876610390109478368106263279892412int, m, 10866101423944112194505544689036032031590683832826023620354458397563005710198int, 19461969196280486289796301174835076989795749358836678486552620827839496948310int);
    lemma_fundamental_div_mod_converse(19461969196280486289796301174835076989795749358836678486552620827839496948310int * 3, m, 2int, 14609421845162908424896092033990680791994625761914388134279786694228038427764int);
    assert(mod_pow(3, 18418647147952648327983903855367387707000211603783nat, 21888242871839275222246405745257275088696311157297823662689037894645226208583nat) == 14609421845162908424896092033990680791994625761914388134279786694228038427764nat);
    lemma_fundamental_div_mod_converse(14609421845162908424896092033990680791994625761914388134279786694228038427764int * 14609421845162908424896092033990680791994625761914388134279786694228038427764int, m, 9751134794128322791779426465791079518332921538170762230355177828092563459684int, 13138218283755174535604572919043479010275259263768906809169735603844350771924int);
    assert(mod_pow(3, 36837294295905296655967807710734775414000423207566nat, 21888242871839275222246405745257275088696311157297823662689037894645226208583nat) == 13138218283755174535604572919043479010275259263768906809169735603844350771924nat);
    lemma_fundamental_div_mod_converse(13138218283755174535604572919043479010275259263768906809169735603844350771924int * 13138218283755174535604572919043479010275259263768906809169735603844350771924int, m, 7886095776727557085455774552408777521650360492767199790606991942559449489945int, 21445591076919783586866350988537532322022267774340613327858759085749135463841int);
    assert(mod_pow(3, 73674588591810593311935615421469550828000846415132nat, 21888242871839275222246405745257275088696311157297823662689037894645226208583nat) == 21445591076919783586866350988537532322022267774340613327858759085749135463841nat);
    lemma_fundamental_div_mod_converse(21445591076919783586866350988537532322022267774340613327858759085749135463841int * 21445591076919783586866350988537532322022267774340613327858759085749135463841int, m, 21011891147743591917708248476436635395632265434804275895987569165536009271510int, 7866993615414069128298716825554154912686596427749220110498460997537079102951int);
    lemma_fundamental_div_mod_converse(7866993615414069128298716825554154912686596427749220110498460997537079102951int * 3, m, 1int, 1712737974402932162649744731405189649363478125949836668806345097966011100270int);
    assert(mod_pow(3, 147349177183621186623871230842939101656001692830265nat, 21888242871839275222246405745257275088696311157297823662689037894645226208583nat) == 1712737974402932162649744731405189649363478125949836668806345097966011100270nat);
    lemma_fundamental_div_mod_converse(1712737974402932162649744731405189649363478125949836668806345097966011100270int * 1712737974402932162649744731405189649363478125949836668806345097966011100270int, m, 134020413887858083761089653579300713892307548191611101349780541974972702877int, 13097307949134016882750062252185596744413413631945719064282853234609507879609int);
    lemma_fundamental_div_mod_converse(13097307949134016882750062252185596744413413631945719064282853234609507879609int * 3, m, 1int, 17403680975562775426003781011299515144543929738539333530159521809183297430244int);
    assert(mod_pow(3, 294698354367242373247742461685878203312003385660531nat, 21888242871839275222246405745257275088696311157297823662689037894645226208583nat) == 17403680975562775426003781011299515144543929738539333530159521809183297430244nat);
    lemma_fundamental_div_mod_converse(17403680975562775426003781011299515144543929738539333530159521809183297430244int * 17403680975562775426003781011299515144543929738539333530159521809183297430244int, m, 13837936342019120931560502659578459701153518716001998395603647131488128867969int, 12012935817356348524024741135729905230659725970209261067693449287504384321609int);
    assert(mod_pow(3, 589396708734484746495484923371756406624006771321062nat, 21888242871839275222246405745257275088696311157297823662689037894645226208583nat) == 12012935817356348524024741135729905230659725970209261067693449287504384321609nat);
    lemma_fundamental_div_mod_converse(12012935817356348524024741135729905230659725970209261067693449287504384321609int * 12012935817356348524024741135729905230659725970209261067693449287504384321609int, m, 6593065866314401814646904400414728007156179859067298203642005395849943389055int, 6999157156003883271744951460444840515896794709769323221116123565827795089816int);
    lemma_fundamental_div_mod_converse(6999157156003883271744951460444840515896794709769323221116123565827795089816int * 3, m, 0int, 20997471468011649815234854381334521547690384129307969663348370697483385269448int);
    assert(mod_pow(3, 1178793417468969492990969846743512813248013542642125nat, 21888242871839275222246405745257275088696311157297823662689037894645226208583nat) == 20997471468011649815234854381334521547690384129307969663348370697483385269448nat);
    lemma_fundamental_div_mod_converse(20997471468011649815234854381334521547690384129307969663348370697483385269448int * 20997471468011649815234854381334521547690384129307969663348370697483385269448int, m, 20142951201313807301632332005542669699535519785988495288274116676685640535789int, 17051586392213130905749425188780007306021327129847232705594387399362371747717int);
    lemma_fundamental_div_mod_converse(17051586392213130905749425188780007306021327129847232705594387399362371747717int * 3, m, 2int, 7378273432960842272755464075825471740671359074946050791405086408796662825985int);
    assert(mod_pow(3, 2357586834937938985981939693487025626496027085284251nat, 21888242871839275222246405745257275088696311157297823662689037894645226208583nat) == 7378273432960842272755464075825471740671359074946050791405086408796662825985nat);
    lemma_fundamental_div_mod_converse(7378273432960842272755464075825471740671359074946050791405086408796662825985int * 7378273432960842272755464075825471740671359074946050791405086408796662825985int, m, 2487130610268180697768118611711202431558849960132435529430636652742136608535int, 1483953539002374207642572216272994144164552784568948927515482484722263164320int);
    assert(mod_pow(3, 4715173669875877971963879386974051252992054170568502nat, 21888242871839275222246405745257275088696311157297823662689037894645226208583nat) == 1483953539002374207642572216272994144164552784568948927515482484722263164320nat);
    lemma_fundamental_div_mod_converse(1483953539002374207642572216272994144164552784568948927515482484722263164320int * 1483953539002374207642572216272994144164552784568948927515482484722263164320int, m, 100607349745321349456709021530928071791217966490742357512993458798333954673int, 3292284882154725350157356832038124556755118584389099950507800860806955504041int);
    assert(mod_pow(3, 9430347339751755943927758773948102505984108341137004nat, 21888242871839275222246405745257275088696311157297823662689037894645226208583nat) == 3292284882154725350157356832038124556755118584389099950507800860806955504041nat);
    lemma_fundamental_div_mod_converse(3292284882154725350157356832038124556755118584389099950507800860806955504041int * 3292284882154725350157356832038124556755118584389099950507800860806955504041int, m, 495203740598558965841177107280716976008205923972352302182463762234997351053int, 14599127842527315532135249741513660413409327786674860890868614547088914641782int);
    lemma_fundamental_div_mod_converse(14599127842527315532135249741513660413409327786674860890868614547088914641782int * 3, m, 2int, 20897783903396151912937734026431062835361045428935347227767851976291508180int);
    assert(mod_pow(3, 18860694679503511887855517547896205011968216682274009nat, 21888242871839275222246405745257275088696311157297823662689037894645226208583nat) == 20897783903396151912937734026431062835361045428935347227767851976291508180nat);
    lemma_fundamental_div_mod_converse(20897783903396151912937734026431062835361045428935347227767851976291508180int * 20897783903396151912937734026431062835361045428935347227767851976291508180int, m, 19952143926313525211421414745903433521977761038243730192843712977024912int, 21847651428337271140474257220790500335256190171861819196446901916622107692704int);
    assert(mod_pow(3, 37721389359007023775711035095792410023936433364548018nat, 21888242871839275222246405745257275088696311157297823662689037894645226208583nat) == 21847651428337271140474257220790500335256190171861819196446901916622107692704nat);
    lemma_fundamental_div_mod_converse(21847651428337271140474257220790500335256190171861819196446901916622107692704int * 21847651428337271140474257220790500335256190171861819196446901916622107692704int, m, 21807135261105510579424490422969678253238693819974091924494612235106671637289int, 325131095121863372152029099773847245962565375209804516746044587172060180129int);
    lemma_fundamental_div_mod_converse(325131095121863372152029099773847245962565375209804516746044587172060180129int * 3, m, 0int, 975393285365590116456087299321541737887696125629413550238133761516180540387int);
    assert(mod_pow(3, 75442778718014047551422070191584820047872866729096037nat, 21888242871839275222246405745257275088696311157297823662689037894645226208583nat) == 975393285365590116456087299321541737887696125629413550238133761516180540387nat);
    lemma_fundamental_div_mod_converse(975393285365590116456087299321541737887696125629413550238133761516180540387int * 975393285365590116456087299321541737887696125629413550238133761516180540387int, m, 43465894759433184743217895309299794813575807528882153533883756777228609917int, 14335008280708300327708255400222515239700055466525039845002819563233953792158int);
    lemma_fundamental_div_mod_converse(14335008280708300327708255400222515239700055466525039845002819563233953792158int * 3, m, 1int, 21116781970285625760878360455410270630403855242277295872319420795056635167891int);
    assert(mod_pow(3, 150885557436028095102844140383169640095745733458192075nat, 21888242871839275222246405745257275088696311157297823662689037894645226208583nat) == 21116781970285625760878360455410270630403855242277295872319420795056635167891nat);
    lemma_fundamental_div_mod_converse(21116781970285625760878360455410270630403855242277295872319420795056635167891int * 21116781970285625760878360455410270630403855242277295872319420795056635167891int, m, 20372511552961830737432676753377353635244070488878126202998161053922342889788int, 7689083244660375032989180604706703052176984729330005487688578769642688737477int);
    lemma_fundamental_div_mod_converse(7689083244660375032989180604706703052176984729330005487688578769642688737477int * 3, m, 1int, 1179006862141849876721136068862834067834643030692192800376698414282840003848int);
    assert(mod_pow(3, 301771114872056190205688280766339280191491466916384151nat, 21888242871839275222246405745257275088696311157297823662689037894645226208583nat) == 1179006862141849876721136068862834067834643030692192800376698414282840003848nat);
    lemma_fundamental_div_mod_converse(1179006862141849876721136068862834067834643030692192800376698414282840003848int * 1179006862141849876721136068862834067834643030692192800376698414282840003848int, m, 63507024712612945485092253159708419076859212443932566210876912559144004117int, 18142746627517710816317654025604172604941259492113470370859150798407402070893int);
    lemma_fundamental_div_mod_converse(18142746627517710816317654025604172604941259492113470370859150798407402070893int * 3, m, 2int, 10651754138874582004460150586297967637431156161744763787199376605931753795513int);
    assert(mod_pow(3, 603542229744112380411376561532678560382982933832768303nat, 21888242871839275222246405745257275088696311157297823662689037894645226208583nat) == 10651754138874582004460150586297967637431156161744763787199376605931753795513nat);
    lemma_fundamental_div_mod_converse(10651754138874582004460150586297967637431156161744763787199376605931753795513int * 10651754138874582004460150586297967637431156161744763787199376605931753795513int, m, 5183598651539346860919410991611078961286909988007443550393114599139231265864int, 19832119839205924304367706755322357014722778368028788051540766760241027222457int);
    lemma_fundamental_div_mod_converse(19832119839205924304367706755322357014722778368028788051540766760241027222457int * 3, m, 2int, 15719873773939222468610308775452520866775712789490716829244224491432629250205int);
    assert(mod_pow(3, 1207084459488224760822753123065357120765965867665536607nat, 21888242871839275222246405745257275088696311157297823662689037894645226208583nat) == 15719873773939222468610308775452520866775712789490716829244224491432629250205nat);
    lemma_fundamental_div_mod_converse(15719873773939222468610308775452520866775712789490716829244224491432629250205int * 15719873773939222468610308775452520866775712789490716829244224491432629250205int, m, 11289824994883980719277028743764918051959226782180360473632796751626270446178int, 5944168303398605573916290611876222687119626105980882163837320942925789396251int);
    lemma_fundamental_div_mod_converse(5944168303398605573916290611876222687119626105980882163837320942925789396251int * 3, m, 0int, 17832504910195816721748871835628668061358878317942646491511962828777368188753int);
    assert(mod_pow(3, 2414168918976449521645506246130714241531931735331073215nat, 21888242871839275222246405745257275088696311157297823662689037894645226208583nat) == 17832504910195816721748871835628668061358878317942646491511962828777368188753nat);
    lemma_fundamental_div_mod_converse(17832504910195816721748871835628668061358878317942646491511962828777368188753int * 17832504910195816721748871835628668061358878317942646491511962828777368188753int, m, 14528266761023765647223696484573704398327024773238066206447719045350282135709int, 10997902482590144019718713633455030481227523885923298980234313414245889104662int);
    lemma_fundamental_div_mod_converse(10997902482590144019718713633455030481227523885923298980234313414245889104662int * 3, m, 1int, 11105464575931156836909735155107816354986260500472073278013902348092441105403int);
    assert(mod_pow(3, 4828337837952899043291012492261428483063863470662146431nat, 21888242871839275222246405745257275088696311157297823662689037894645226208583nat) == 11105464575931156836909735155107816354986260500472073278013902348092441105403nat);
    lemma_fundamental_div_mod_converse(11105464575931156836909735155107816354986260500472073278013902348092441105403int * 11105464575931156836909735155107816354986260500472073278013902348092441105403int, m, 5634593154388652010681066661776897181265511995189530646887985549539741807165int, 9843523621775425830364569530743549858671507388066056543434693028318901895214int);
    lemma_fundamental_div_mod_converse(9843523621775425830364569530743549858671507388066056543434693028318901895214int * 3, m, 1int, 7642327993487002268847302846973374487318211006900345967615041190311479477059int);
    assert(mod_pow(3, 9656675675905798086582024984522856966127726941324292863nat, 21888242871839275222246405745257275088696311157297823662689037894645226208583nat) == 7642327993487002268847302846973374487318211006900345967615041190311479477059nat);
    lemma_fundamental_div_mod_converse(7642327993487002268847302846973374487318211006900345967615041190311479477059int * 7642327993487002268847302846973374487318211006900345967615041190311479477059int, m, 2668335576410171050091234274224428598274134587409859516603535093845737017165int, 10904023814823937187617381263544438281684742799084619072826142276279565962286int);
    lemma_fundamental_div_mod_converse(10904023814823937187617381263544438281684742799084619072826142276279565962286int * 3, m, 1int, 10823828572632536340605738045376039756357917239956033555789388934193471678275int);
    assert(mod_pow(3, 19313351351811596173164049969045713932255453882648585727nat, 21888242871839275222246405745257275088696311157297823662689037894645226208583nat) == 10823828572632536340605738045376039756357917239956033555789388934193471678275nat);
    lemma_fundamental_div_mod_converse(10823828572632536340605738045376039756357917239956033555789388934193471678275int * 10823828572632536340605738045376039756357917239956033555789388934193471678275int, m, 5352428957212676389546936784050195050404999735680798963728430658733529018237int, 12632647366909407720165844974140945498164254322111877645655550179875334047454int);
    lemma_fundamental_div_mod_converse(12632647366909407720165844974140945498164254322111877645655550179875334047454int * 3, m, 1int, 16009699228888947938251129177165561405796451809037809274277612644980775933779int);
    assert(mod_pow(3, 38626702703623192346328099938091427864510907765297171455nat, 21888242871839275222246405745257275088696311157297823662689037894645226208583nat) == 16009699228888947938251129177165561405796451809037809274277612644980775933779nat);
    lemma_fundamental_div_mod_converse(16009699228888947938251129177165561405796451809037809274277612644980775933779int * 16009699228888947938251129177165561405796451809037809274277612644980775933779int, m, 11709960954848886560649095990737635931324600572074387875887683173108280620956int, 9997704891600313413819068299731027116200483214864916920718360586616576355493int);
    assert(mod_pow(3, 77253405407246384692656199876182855729021815530594342910nat, 21888242871839275222246405745257275088696311157297823662689037894645226208583nat) == 9997704891600313413819068299731027116200483214864916920718360586616576355493nat);
    lemma_fundamental_div_mod_converse(9997704891600313413819068299731027116200483214864916920718360586616576355493int * 9997704891600313413819068299731027116200483214864916920718360586616576355493int, m, 4566565881271659295697736544291871021492933156711237595978564520611384299701int, 1691985972792662489430027277156434679403609172391074865991681411781500739366int);
    lemma_fundamental_div_mod_converse(1691985972792662489430027277156434679403609172391074865991681411781500739366int * 3, m, 0int, 5075957918377987468290081831469304038210827517173224597975044235344502218098int);
    assert(mod_pow(3, 154506810814492769385312399752365711458043631061188685821nat, 21888242871839275222246405745257275088696311157297823662689037894645226208583nat) == 5075957918377987468290081831469304038210827517173224597975044235344502218098nat);
    lemma_fundamental_div_mod_converse(5075957918377987468290081831469304038210827517173224597975044235344502218098int * 5075957918377987468290081831469304038210827517173224597975044235344502218098int, m, 1177131894049525509639286570126476916816856868252109839391649973400495428142int, 18713753860594410659613599490922718717850737966124281599590430472553978594818int);
    lemma_fundamental_div_mod_converse(18713753860594410659613599490922718717850737966124281599590430472553978594818int * 3, m, 2int, 12364775838104681534347986982253605976159591583777197473393215628371483367288int);
    assert(mod_pow(3, 309013621628985538770624799504731422916087262122377371643nat, 21888242871839275222246405745257275088696311157297823662689037894645226208583nat) == 12364775838104681534347986982253605976159591583777197473393215628371483367288nat);
    lemma_fundamental_div_mod_converse(12364775838104681534347986982253605976159591583777197473393215628371483367288int * 12364775838104681534347986982253605976159591583777197473393215628371483367288int, m, 6984922564217240643927388570513518614080612002706513446741332366076274192652int, 13302537525503175875103775165182801052140569108347118128667685496051830542828int);
    assert(mod_pow(3, 618027243257971077541249599009462845832174524244754743286nat, 21888242871839275222246405745257275088696311157297823662689037894645226208583nat) == 13302537525503175875103775165182801052140569108347118128667685496051830542828nat);
    lemma_fundamental_div_mod_converse(13302537525503175875103775165182801052140569108347118128667685496051830542828int * 13302537525503175875103775165182801052140569108347118128667685496051830542828int, m, 8084591607172274058410305814932122377128721510434340052555923539530053632174int, 10546702093186342710947841342436536304723178797662281765569618319567058488142int);
    assert(mod_pow(3, 1236054486515942155082499198018925691664349048489509486572nat, 21888242871839275222246405745257275088696311157297823662689037894645226208583nat) == 10546702093186342710947841342436536304723178797662281765569618319567058488142nat);
    lemma_fundamental_div_mod_converse(10546702093186342710947841342436536304723178797662281765569618319567058488142int * 10546702093186342710947841342436536304723178797662281765569618319567058488142int, m, 5081857218677428203393517996252621818397688805861857037075313435893269947777int, 21625258639244525423693033561694173792147747168250043930282819681602635442173int);
    assert(mod_pow(3, 2472108973031884310164998396037851383328698096979018973144nat, 21888242871839275222246405745257275088696311157297823662689037894645226208583nat) == 21625258639244525423693033561694173792147747168250043930282819681602635442173nat);
    lemma_fundamental_div_mod_converse(21625258639244525423693033561694173792147747168250043930282819681602635442173int * 21625258639244525423693033561694173792147747168250043930282819681602635442173int, m, 21365434126093606790408564713185918094395401827634365557686693810324458270374int, 18973540768179306497889357242698230659719420427668615851045586566233293541887int);
    lemma_fundamental_div_mod_converse(18973540768179306497889357242698230659719420427668615851045586566233293541887int * 3, m, 2int, 13144136560859369049175260237580141801765638968410200227758683909409428208495int);
    assert(mod_pow(3, 4944217946063768620329996792075702766657396193958037946289nat, 21888242871839275222246405745257275088696311157297823662689037894645226208583nat) == 13144136560859369049175260237580141801765638968410200227758683909409428208495nat);
    lemma_fundamental_div_mod_converse(13144136560859369049175260237580141801765638968410200227758683909409428208495int * 13144136560859369049175260237580141801765638968410200227758683909409428208495int, m, 7893202160727038328861773707587849817711984436461195604881802411828345631088int, 10324563477050576699064074671261489229287496266796261809013618593222532936721int);
    lemma_fundamental_div_mod_converse(10324563477050576699064074671261489229287496266796261809013618593222532936721int * 3, m, 1int, 9085447559312454874945818268527192599166177643090961764351817885022372601580int);
    assert(mod_pow(3, 9888435892127537240659993584151405533314792387916075892579nat, 21888242871839275222246405745257275088696311157297823662689037894645226208583nat) == 9085447559312454874945818268527192599166177643090961764351817885022372601580nat);
    lemma_fundamental_div_mod_converse(9085447559312454874945818268527192599166177643090961764351817885022372601580int * 9085447559312454874945818268527192599166177643090961764351817885022372601580int, m, 3771218998086726437260153919704587561812769622863931675998364568455116232539int, 12339850342648333676976114487575776683431726980465149955362608705739472814163int);
    lemma_fundamental_div_mod_converse(12339850342648333676976114487575776683431726980465149955362608705739472814163int * 3, m, 1int, 15131308156105725808681937717470054961598869784097626203398788222573192233906int);
    assert(mod_pow(3, 19776871784255074481319987168302811066629584775832151785159nat, 21888242871839275222246405745257275088696311157297823662689037894645226208583nat) == 15131308156105725808681937717470054961598869784097626203398788222573192233906nat);
    lemma_fundamental_div_mod_converse(15131308156105725808681937717470054961598869784097626203398788222573192233906int * 15131308156105725808681937717470054961598869784097626203398788222573192233906int, m, 10460249726559817808612307476165794533406289720458184832892190071622327443272int, 19952340538611819501621065278171258752998602703761988552900141993606044013260int);
    assert(mod_pow(3, 39553743568510148962639974336605622133259169551664303570318nat, 21888242871839275222246405745257275088696311157297823662689037894645226208583nat) == 19952340538611819501621065278171258752998602703761988552900141993606044013260nat);
    lemma_fundamental_div_mod_converse(19952340538611819501621065278171258752998602703761988552900141993606044013260int * 19952340538611819501621065278171258752998602703761988552900141993606044013260int, m, 18187658794708927741391611254295254100490040879310759284606479285042789163007int, 12806787111817274071579249780700750281981895351802899647785620539840486338519int);
    assert(mod_pow(3, 79107487137020297925279948673211244266518339103328607140636nat, 21888242871839275222246405745257275088696311157297823662689037894645226208583nat) == 12806787111817274071579249780700750281981895351802899647785620539840486338519nat);
    lemma_fundamental_div_mod_converse(12806787111817274071579249780700750281981895351802899647785620539840486338519int * 12806787111817274071579249780700750281981895351802899647785620539840486338519int, m, 7493237218160806658849058865584831197497374161308265605722241457742480418158int, 5265074607720909833564885857036372591494283180533026435816438880868294463247int);
    lemma_fundamental_div_mod_converse(5265074607720909833564885857036372591494283180533026435816438880868294463247int * 3, m, 0int, 15795223823162729500694657571109117774482849541599079307449316642604883389741int);
    assert(mod_pow(3, 158214974274040595850559897346422488533036678206657214281273nat, 21888242871839275222246405745257275088696311157297823662689037894645226208583nat) == 15795223823162729500694657571109117774482849541599079307449316642604883389741nat);
    lemma_fundamental_div_mod_converse(15795223823162729500694657571109117774482849541599079307449316642604883389741int * 15795223823162729500694657571109117774482849541599079307449316642604883389741int, m, 11398315391720742270155511387684860728632572127475574455073561457819167381359int, 1726470115183562574955185530980869923477838734805720565290787582430464042784int);
    lemma_fundamental_div_mod_converse(1726470115183562574955185530980869923477838734805720565290787582430464042784int * 3, m, 0int, 5179410345550687724865556592942609770433516204417161695872362747291392128352int);
    assert(mod_pow(3, 316429948548081191701119794692844977066073356413314428562547nat, 21888242871839275222246405745257275088696311157297823662689037894645226208583nat) == 5179410345550687724865556592942609770433516204417161695872362747291392128352nat);
    lemma_fundamental_div_mod_converse(5179410345550687724865556592942609770433516204417161695872362747291392128352int * 5179410345550687724865556592942609770433516204417161695872362747291392128352int, m, 1225602789802344402612620049368585554560978028678674544482300748553600145607int, 19296069205208555749305648156089580383410511296225399632441103590507089091023int);
    lemma_fundamental_div_mod_converse(19296069205208555749305648156089580383410511296225399632441103590507089091023int * 3, m, 2int, 14111721871947116803424132977754190972838911574080551571945234982230814855903int);
    assert(mod_pow(3, 632859897096162383402239589385689954132146712826628857125095nat, 21888242871839275222246405745257275088696311157297823662689037894645226208583nat) == 14111721871947116803424132977754190972838911574080551571945234982230814855903nat);
    lemma_fundamental_div_mod_converse(14111721871947116803424132977754190972838911574080551571945234982230814855903int * 14111721871947116803424132977754190972838911574080551571945234982230814855903int, m, 9098066727293070727818835110896726713863754404187823248621116864180256954767int, 13489915329319120224518941937983762066168166848269421417388799292493915780248int);
    lemma_fundamental_div_mod_converse(13489915329319120224518941937983762066168166848269421417388799292493915780248int * 3, m, 1int, 18581503116118085451310420068694011109808189387510440589477359982836521132161int);
    assert(mod_pow(3, 1265719794192324766804479178771379908264293425653257714250191nat, 21888242871839275222246405745257275088696311157297823662689037894645226208583nat) == 18581503116118085451310420068694011109808189387510440589477359982836521132161nat);
    lemma_fundamental_div_mod_converse(18581503116118085451310420068694011109808189387510440589477359982836521132161int * 18581503116118085451310420068694011109808189387510440589477359982836521132161int, m, 15774325060077003549271720932374882379560335599692797808080599901085951239452int, 1241948657749673214191411990989154370368950458735092643207830030297697913405int);
    assert(mod_pow(3, 2531439588384649533608958357542759816528586851306515428500382nat, 21888242871839275222246405745257275088696311157297823662689037894645226208583nat) == 1241948657749673214191411990989154370368950458735092643207830030297697913405nat);
    lemma_fundamental_div_mod_converse(1241948657749673214191411990989154370368950458735092643207830030297697913405int * 1241948657749673214191411990989154370368950458735092643207830030297697913405int, m, 70468720468679794083825148293714176898646676616232030395385418158011567649int, 6005165364746842147695352749492614474576880292565083250817813339270389762658int);
    assert(mod_pow(3, 5062879176769299067217916715085519633057173702613030857000764nat, 21888242871839275222246405745257275088696311157297823662689037894645226208583nat) == 6005165364746842147695352749492614474576880292565083250817813339270389762658nat);
    lemma_fundamental_div_mod_converse(6005165364746842147695352749492614474576880292565083250817813339270389762658int * 6005165364746842147695352749492614474576880292565083250817813339270389762658int, m, 1647551668222364380739195302761069309909399688894377663585001411140385069137int, 7539207792786823266874000065383279451827649630632277198605299882320733422093int);
    assert(mod_pow(3, 10125758353538598134435833430171039266114347405226061714001528nat, 21888242871839275222246405745257275088696311157297823662689037894645226208583nat) == 7539207792786823266874000065383279451827649630632277198605299882320733422093nat);
    lemma_fundamental_div_mod_converse(7539207792786823266874000065383279451827649630632277198605299882320733422093int * 7539207792786823266874000065383279451827649630632277198605299882320733422093int, m, 2596812109387989046197889394280121055497972060638202372391211129608509142625int, 9550944851086449807633632131596091856615094345797390370721515158465754350274int);
    assert(mod_pow(3, 20251516707077196268871666860342078532228694810452123428003056nat, 21888242871839275222246405745257275088696311157297823662689037894645226208583nat) == 9550944851086449807633632131596091856615094345797390370721515158465754350274nat);
    lemma_fundamental_div_mod_converse(9550944851086449807633632131596091856615094345797390370721515158465754350274int * 9550944851086449807633632131596091856615094345797390370721515158465754350274int, m, 4167559181548385229120805031553712335359161553547820937029468300856573509644int, 13115128467181524799523673477759092962071465278801108455831474746923977800624int);
    lemma_fundamental_div_mod_converse(13115128467181524799523673477759092962071465278801108455831474746923977800624int * 3, m, 1int, 17457142529705299176324614688020003797518084679105501704805386346126707193289int);
    assert(mod_pow(3, 40503033414154392537743333720684157064457389620904246856006113nat, 21888242871839275222246405745257275088696311157297823662689037894645226208583nat) == 17457142529705299176324614688020003797518084679105501704805386346126707193289nat);
    lemma_fundamental_div_mod_converse(17457142529705299176324614688020003797518084679105501704805386346126707193289int * 17457142529705299176324614688020003797518084679105501704805386346126707193289int, m, 13923083140425568135036242276679738588724980990767083741651099698055075014673int, 19459416117091019577979332422271495773383507182700016521026407318063123099162int);
    lemma_fundamental_div_mod_converse(19459416117091019577979332422271495773383507182700016521026407318063123099162int * 3, m, 2int, 14601762607594508289445185776299937142757899233504402237701146164898916880320int);
    assert(mod_pow(3, 81006066828308785075486667441368314128914779241808493712012227nat, 21888242871839275222246405745257275088696311157297823662689037894645226208583nat) == 14601762607594508289445185776299937142757899233504402237701146164898916880320nat);
    lemma_fundamental_div_mod_converse(14601762607594508289445185776299937142757899233504402237701146164898916880320int * 14601762607594508289445185776299937142757899233504402237701146164898916880320int, m, 9740913078173869614201551879049258521937296338632689819177858989825752680872int, 13479411815194015611767185034906231481525253996083447668912005022952696978024int);
    assert(mod_pow(3, 162012133656617570150973334882736628257829558483616987424024454nat, 21888242871839275222246405745257275088696311157297823662689037894645226208583nat) == 13479411815194015611767185034906231481525253996083447668912005022952696978024nat);
    lemma_fundamental_div_mod_converse(13479411815194015611767185034906231481525253996083447668912005022952696978024int * 13479411815194015611767185034906231481525253996083447668912005022952696978024int, m, 8301010910170158542171854055504835533924746511345569727660101189146240675475int, 14067838170037581005660504827411252313116957585723060884464733577710776342651int);
    assert(mod_pow(3, 324024267313235140301946669765473256515659116967233974848048908nat, 21888242871839275222246405745257275088696311157297823662689037894645226208583nat) == 14067838170037581005660504827411252313116957585723060884464733577710776342651nat);
    lemma_fundamental_div_mod_converse(14067838170037581005660504827411252313116957585723060884464733577710776342651int * 14067838170037581005660504827411252313116957585723060884464733577710776342651int, m, 9041569574001002531096277534554564361545123675016865875944005587539608608893int, 10049700735346295948047899939326729270397686383350585931305433128554474979182int);
    assert(mod_pow(3, 648048534626470280603893339530946513031318233934467949696097816nat, 21888242871839275222246405745257275088696311157297823662689037894645226208583nat) == 10049700735346295948047899939326729270397686383350585931305433128554474979182nat);
    lemma_fundamental_div_mod_converse(10049700735346295948047899939326729270397686383350585931305433128554474979182int * 10049700735346295948047899939326729270397686383350585931305433128554474979182int, m, 4614188788994057721820454437156882292900627506776394077014498216969250256451int, 11010696896705596938708052892430290938864016874743020286788774870900166070191int);
    lemma_fundamental_div_mod_converse(11010696896705596938708052892430290938864016874743020286788774870900166070191int * 3, m, 1int, 11143847818277515593877752932033597727895739466931237197677286718055272001990int);
    assert(mod_pow(3, 1296097069252940561207786679061893026062636467868935899392195633nat, 21888242871839275222246405745257275088696311157297823662689037894645226208583nat) == 11143847818277515593877752932033597727895739466931237197677286718055272001990nat);
    lemma_fundamental_div_mod_converse(11143847818277515593877752932033597727895739466931237197677286718055272001990int * 11143847818277515593877752932033597727895739466931237197677286718055272001990int, m, 5673609568573524089121675325655410146726326992822474321793648103491913657085int, 13353394411605322203476821929884194631121091008754522227385700893830018199545int);
    lemma_fundamental_div_mod_converse(13353394411605322203476821929884194631121091008754522227385700893830018199545int * 3, m, 1int, 18171940362976691388184060044395308804666961868965743019468064786844828390052int);
    assert(mod_pow(3, 2592194138505881122415573358123786052125272935737871798784391267nat, 21888242871839275222246405745257275088696311157297823662689037894645226208583nat) == 18171940362976691388184060044395308804666961868965743019468064786844828390052nat);
    lemma_fundamental_div_mod_converse(18171940362976691388184060044395308804666961868965743019468064786844828390052int * 18171940362976691388184060044395308804666961868965743019468064786844828390052int, m, 15086611496824688497597339493452399694083975314406212338179341477018034667401int, 6811764340138416678474211861124951649450396665784961863565595726651596059921int);
    assert(mod_pow(3, 5184388277011762244831146716247572104250545871475743597568782534nat, 21888242871839275222246405745257275088696311157297823662689037894645226208583nat) == 6811764340138416678474211861124951649450396665784961863565595726651596059921nat);
    lemma_fundamental_div_mod_converse(6811764340138416678474211861124951649450396665784961863565595726651596059921int * 6811764340138416678474211861124951649450396665784961863565595726651596059921int, m, 2119865614488329317856403505733718856967454253738113590465160332580110188406int, 4132158669463149859565102302169123061119429846298401187007136650998238237543int);
    lemma_fundamental_div_mod_converse(4132158669463149859565102302169123061119429846298401187007136650998238237543int * 3, m, 0int, 12396476008389449578695306906507369183358289538895203561021409952994714712629int);
    assert(mod_pow(3, 10368776554023524489662293432495144208501091742951487195137565069nat, 21888242871839275222246405745257275088696311157297823662689037894645226208583nat) == 12396476008389449578695306906507369183358289538895203561021409952994714712629nat);
    lemma_fundamental_div_mod_converse(12396476008389449578695306906507369183358289538895203561021409952994714712629int * 12396476008389449578695306906507369183358289538895203561021409952994714712629int, m, 7020783638337894018198454494567995802735375847153573220605486506763851325057int, 10082947135024735841484808207270483709540865801213155781829241792965235727410int);
    lemma_fundamental_div_mod_converse(10082947135024735841484808207270483709540865801213155781829241792965235727410int * 3, m, 1int, 8360598533234932302208018876554176039926286246341643682798687484250480973647int);
    assert(mod_pow(3, 20737553108047048979324586864990288417002183485902974390275130139nat, 21888242871839275222246405745257275088696311157297823662689037894645226208583nat) == 8360598533234932302208018876554176039926286246341643682798687484250480973647nat);
    lemma_fundamental_div_mod_converse(8360598533234932302208018876554176039926286246341643682798687484250480973647int * 8360598533234932302208018876554176039926286246341643682798687484250480973647int, m, 3193477349607662574766836337901681747627512770648059795300468020290293906426int, 12625025167806107373895823449049794083163195405728293880575827333152948426251int);
    lemma_fundamental_div_mod_converse(12625025167806107373895823449049794083163195405728293880575827333152948426251int * 3, m, 1int, 15986832631579046899441064601892107160793275059887057979038444104813619070170int);
    assert(mod_pow(3, 41475106216094097958649173729980576834004366971805948780550260279nat, 21888242871839275222246405745257275088696311157297823662689037894645226208583nat) == 15986832631579046899441064601892107160793275059887057979038444104813619070170nat);
    lemma_fundamental_div_mod_converse(15986832631579046899441064601892107160793275059887057979038444104813619070170int * 15986832631579046899441064601892107160793275059887057979038444104813619070170int, m, 11676534251131702366990632676724817865282349442796233049766036689429182508418int, 21389991777496133935643448653940668660829087681209729041133050628607762477206int);
    lemma_fundamental_div_mod_converse(21389991777496133935643448653940668660829087681209729041133050628607762477206int * 3, m, 2int, 20393489588809851362437534471307455805094640729033539798021076096532835014452int);
    assert(mod_pow(3, 82950212432188195917298347459961153668008733943611897561100520559nat, 21888242871839275222246405745257275088696311157297823662689037894645226208583nat) == 20393489588809851362437534471307455805094640729033539798021076096532835014452nat);
    lemma_fundamental_div_mod_converse(20393489588809851362437534471307455805094640729033539798021076096532835014452int * 20393489588809851362437534471307455805094640729033539798021076096532835014452int, m, 19000813361038335151777514368275294448586913833989333607644393258142403729131int, 19752836312650282290363253088705447813081162884531818500576389646787409528931int);
    lemma_fundamental_div_mod_converse(19752836312650282290363253088705447813081162884531818500576389646787409528931int * 3, m, 2int, 15482023194272296426596947775601793261850866338999808176351093151071776169627int);
    assert(mod_pow(3, 165900424864376391834596694919922307336017467887223795122201041119nat, 21888242871839275222246405745257275088696311157297823662689037894645226208583nat) == 15482023194272296426596947775601793261850866338999808176351093151071776169627nat);
    lemma_fundamental_div_mod_converse(15482023194272296426596947775601793261850866338999808176351093151071776169627int * 15482023194272296426596947775601793261850866338999808176351093151071776169627int, m, 10950766746853256516265145052509704919174708796425402288919444197223387768302int, 6511360600353483098452817234806864423752997060528136209003046256006749583063int);
    lemma_fundamental_div_mod_converse(6511360600353483098452817234806864423752997060528136209003046256006749583063int * 3, m, 0int, 19534081801060449295358451704420593271258991181584408627009138768020248749189int);
    assert(mod_pow(3, 331800849728752783669193389839844614672034935774447590244402082239nat, 21888242871839275222246405745257275088696311157297823662689037894645226208583nat) == 19534081801060449295358451704420593271258991181584408627009138768020248749189nat);
    lemma_fundamental_div_mod_converse(19534081801060449295358451704420593271258991181584408627009138768020248749189int * 19534081801060449295358451704420593271258991181584408627009138768020248749189int, m, 17433119416883404765133479575167280254664547852470415506074317909360873612136int, 1391882005461689813700552175587787865837373973953875625573123080555651994433int);
    assert(mod_pow(3, 663601699457505567338386779679689229344069871548895180488804164478nat, 21888242871839275222246405745257275088696311157297823662689037894645226208583nat) == 1391882005461689813700552175587787865837373973953875625573123080555651994433nat);
    lemma_fundamental_div_mod_converse(1391882005461689813700552175587787865837373973953875625573123080555651994433int * 1391882005461689813700552175587787865837373973953875625573123080555651994433int, m, 88510326227262876786308646462531019011503598471824548519950493131630421532int, 8859893992583127069507427988509098713599333369291795032992153351096216582333int);
    lemma_fundamental_div_mod_converse(8859893992583127069507427988509098713599333369291795032992153351096216582333int * 3, m, 1int, 4691439105910105986275878220270021052101688950577561436287422158643423538416int);
    assert(mod_pow(3, 1327203398915011134676773559359378458688139743097790360977608328957nat, 21888242871839275222246405745257275088696311157297823662689037894645226208583nat) == 4691439105910105986275878220270021052101688950577561436287422158643423538416nat);
    lemma_fundamental_div_mod_converse(4691439105910105986275878220270021052101688950577561436287422158643423538416int * 4691439105910105986275878220270021052101688950577561436287422158643423538416int, m, 1005544438323986016835064618052943361198754873300907175205503798036472019946int, 18353898047945252613160705251057162334572856263563081458041858136644695392538int);
    assert(mod_pow(3, 2654406797830022269353547118718756917376279486195580721955216657914nat, 21888242871839275222246405745257275088696311157297823662689037894645226208583nat) == 18353898047945252613160705251057162334572856263563081458041858136644695392538nat);
    lemma_fundamental_div_mod_converse(18353898047945252613160705251057162334572856263563081458041858136644695392538int * 18353898047945252613160705251057162334572856263563081458041858136644695392538int, m, 15390251996324894819213447036104701753140211463348579984127201247471992822153int, 21858276306088987467900269017899877358175743883812388311688619596555504942245int);
    lemma_fundamental_div_mod_converse(21858276306088987467900269017899877358175743883812388311688619596555504942245int * 3, m, 2int, 21798343174588411959207995563185081897134609336841517609687783000376062409569int);
    assert(mod_pow(3, 5308813595660044538707094237437513834752558972391161443910433315829nat, 21888242871839275222246405745257275088696311157297823662689037894645226208583nat) == 21798343174588411959207995563185081897134609336841517609687783000376062409569nat);
    lemma_fundamental_div_mod_converse(21798343174588411959207995563185081897134609336841517609687783000376062409569int * 21798343174588411959207995563185081897134609336841517609687783000376062409569int, m, 21708812714631429186756829007830074877887584420527895319565927120534227892396int, 5087332501327026365650651801860923568686208294324316326421227376884327130893int);
    assert(mod_pow(3, 10617627191320089077414188474875027669505117944782322887820866631658nat, 21888242871839275222246405745257275088696311157297823662689037894645226208583nat) == 5087332501327026365650651801860923568686208294324316326421227376884327130893nat);
    lemma_fundamental_div_mod_converse(5087332501327026365650651801860923568686208294324316326421227376884327130893int * 5087332501327026365650651801860923568686208294324316326421227376884327130893int, m, 1182413413931728500768754344562699337607666801590590418796667810395928768202int, 3995988332320252373987047949406781375672182895037719925562650175531245099683int);
    lemma_fundamental_div_mod_converse(3995988332320252373987047949406781375672182895037719925562650175531245099683int * 3, m, 0int, 11987964996960757121961143848220344127016548685113159776687950526593735299049int);
    assert(mod_pow(3, 21235254382640178154828376949750055339010235889564645775641733263317nat, 21888242871839275222246405745257275088696311157297823662689037894645226208583nat) == 11987964996960757121961143848220344127016548685113159776687950526593735299049nat);
    lemma_fundamental_div_mod_converse(11987964996960757121961143848220344127016548685113159776687950526593735299049int * 11987964996960757121961143848220344127016548685113159776687950526593735299049int, m, 6565684856926124926443498740499498012999569355722864646687810711172882748696int, 21059520890060157998094248038704456582996173309413607138296205677277793046633int);
    lemma_fundamental_div_mod_converse(21059520890060157998094248038704456582996173309413607138296205677277793046633int * 3, m, 2int, 19402076926501923549789932625598819571595897613645174089510541242542926722733int);
    assert(mod_pow(3, 42470508765280356309656753899500110678020471779129291551283466526635nat, 21888242871839275222246405745257275088696311157297823662689037894645226208583nat) == 19402076926501923549789932625598819571595897613645174089510541242542926722733nat);
    lemma_fundamental_div_mod_converse(19402076926501923549789932625598819571595897613645174089510541242542926722733int * 19402076926501923549789932625598819571595897613645174089510541242542926722733int, m, 17198300990447019799893943370699005624752520681283166473797017034169342407392int, 14703395264805444425493452580361031154671024000895503296534460285737905943753int);
    assert(mod_pow(3, 84941017530560712619313507799000221356040943558258583102566933053270nat, 21888242871839275222246405745257275088696311157297823662689037894645226208583nat) == 14703395264805444425493452580361031154671024000895503296534460285737905943753nat);
    lemma_fundamental_div_mod_converse(14703395264805444425493452580361031154671024000895503296534460285737905943753int * 14703395264805444425493452580361031154671024000895503296534460285737905943753int, m, 9876984350865651401282048695834818384918302493577092738632742569127791802370int, 3859141283236432093198513224593921360710291479486868866468982397822465983299int);
    lemma_fundamental_div_mod_converse(3859141283236432093198513224593921360710291479486868866468982397822465983299int * 3, m, 0int, 11577423849709296279595539673781764082130874438460606599406947193467397949897int);
    assert(mod_pow(3, 169882035061121425238627015598000442712081887116517166205133866106541nat, 21888242871839275222246405745257275088696311157297823662689037894645226208583nat) == 11577423849709296279595539673781764082130874438460606599406947193467397949897nat);
    lemma_fundamental_div_mod_converse(11577423849709296279595539673781764082130874438460606599406947193467397949897int * 11577423849709296279595539673781764082130874438460606599406947193467397949897int, m, 6123686756430552929459278730715540702785122185612092569046237627883675642466int, 19606129989572956880463190664952588058790029961768536057413178259434673824931int);
    lemma_fundamental_div_mod_converse(19606129989572956880463190664952588058790029961768536057413178259434673824931int * 3, m, 2int, 15041904225040320196896760504343213998977467570709960846861458989013569057627int);
    assert(mod_pow(3, 339764070122242850477254031196000885424163774233034332410267732213083nat, 21888242871839275222246405745257275088696311157297823662689037894645226208583nat) == 15041904225040320196896760504343213998977467570709960846861458989013569057627nat);
    lemma_fundamental_div_mod_converse(15041904225040320196896760504343213998977467570709960846861458989013569057627int * 15041904225040320196896760504343213998977467570709960846861458989013569057627int, m, 10337005306459907623124282841648511371495782273124149481838952391724797277383int, 19367982738822509631843577783706613847371654524212392766113514898770780492840int);
    assert(mod_pow(3, 679528140244485700954508062392001770848327548466068664820535464426166nat, 21888242871839275222246405745257275088696311157297823662689037894645226208583nat) == 19367982738822509631843577783706613847371654524212392766113514898770780492840nat);
    lemma_fundamental_div_mod_converse(19367982738822509631843577783706613847371654524212392766113514898770780492840int * 19367982738822509631843577783706613847371654524212392766113514898770780492840int, m, 17137910866931336573241915746461663504684192513061069729100152127007496600070int, 5654137640098107606805839992977363834671200875457236462384067321244138864790int);
    assert(mod_pow(3, 1359056280488971401909016124784003541696655096932137329641070928852332nat, 21888242871839275222246405745257275088696311157297823662689037894645226208583nat) == 5654137640098107606805839992977363834671200875457236462384067321244138864790nat);
    lemma_fundamental_div_mod_converse(5654137640098107606805839992977363834671200875457236462384067321244138864790int * 5654137640098107606805839992977363834671200875457236462384067321244138864790int, m, 1460568243890644038867248661417514108349670487168636187307144264848223466162int, 13878904746149903559239363430157849374889825881221131996680068638112047275654int);
    assert(mod_pow(3, 2718112560977942803818032249568007083393310193864274659282141857704664nat, 21888242871839275222246405745257275088696311157297823662689037894645226208583nat) == 13878904746149903559239363430157849374889825881221131996680068638112047275654nat);
    lemma_fundamental_div_mod_converse(13878904746149903559239363430157849374889825881221131996680068638112047275654int * 13878904746149903559239363430157849374889825881221131996680068638112047275654int, m, 8800340807645473195571098670582362963027297850874445600161234755234995526359int, 8739795862289652801130513188302289234406278797335997219896247867899452588419int);
    assert(mod_pow(3, 5436225121955885607636064499136014166786620387728549318564283715409328nat, 21888242871839275222246405745257275088696311157297823662689037894645226208583nat) == 8739795862289652801130513188302289234406278797335997219896247867899452588419nat);
    lemma_fundamental_div_mod_converse(8739795862289652801130513188302289234406278797335997219896247867899452588419int * 8739795862289652801130513188302289234406278797335997219896247867899452588419int, m, 3489728808371759629509291077984796505432075104552775879232124817283345670044int, 19429461516876585852444604343259802391388723659108562887438859311739174131909int);
    assert(mod_pow(3, 10872450243911771215272128998272028333573240775457098637128567430818656nat, 21888242871839275222246405745257275088696311157297823662689037894645226208583nat) == 19429461516876585852444604343259802391388723659108562887438859311739174131909nat);
    lemma_fundamental_div_mod_converse(19429461516876585852444604343259802391388723659108562887438859311739174131909int * 19429461516876585852444604343259802391388723659108562887438859311739174131909int, m, 17246883500249941942684287830673607646982879871296910029961782088403775522727int, 936594390998889597418805143039251948170412734017081196223078791662573018440int);
    lemma_fundamental_div_mod_converse(936594390998889597418805143039251948170412734017081196223078791662573018440int * 3, m, 0int, 2809783172996668792256415429117755844511238202051243588669236374987719055320int);
    assert(mod_pow(3, 21744900487823542430544257996544056667146481550914197274257134861637313nat, 21888242871839275222246405745257275088696311157297823662689037894645226208583nat) == 2809783172996668792256415429117755844511238202051243588669236374987719055320nat);
    lemma_fundamental_div_mod_converse(2809783172996668792256415429117755844511238202051243588669236374987719055320int * 2809783172996668792256415429117755844511238202051243588669236374987719055320int, m, 360690509762779275510045700248768190891759898043852608014088003591806601958int, 5003698124711777678313677528823171325489537885960221049231695405484256096886int);
    assert(mod_pow(3, 43489800975647084861088515993088113334292963101828394548514269723274626nat, 21888242871839275222246405745257275088696311157297823662689037894645226208583nat) == 5003698124711777678313677528823171325489537885960221049231695405484256096886nat);
    lemma_fundamental_div_mod_converse(5003698124711777678313677528823171325489537885960221049231695405484256096886int * 5003698124711777678313677528823171325489537885960221049231695405484256096886int, m, 1143855862247214497333493605039842005793026381773465323956947209381598879533int, 1907266721932438501166185159876701600137536025303225861396668441664471265257int);
    assert(mod_pow(3, 86979601951294169722177031986176226668585926203656789097028539446549252nat, 21888242871839275222246405745257275088696311157297823662689037894645226208583nat) == 1907266721932438501166185159876701600137536025303225861396668441664471265257nat);
    lemma_fundamental_div_mod_converse(1907266721932438501166185159876701600137536025303225861396668441664471265257int * 1907266721932438501166185159876701600137536025303225861396668441664471265257int, m, 166192707650873921332540375920677088425457193257711457248772155971362341020int, 5352868130510524287618188469141997584863830401305068316353912324596758301389int);
    assert(mod_pow(3, 173959203902588339444354063972352453337171852407313578194057078893098504nat, 21888242871839275222246405745257275088696311157297823662689037894645226208583nat) == 5352868130510524287618188469141997584863830401305068316353912324596758301389nat);
    lemma_fundamental_div_mod_converse(5352868130510524287618188469141997584863830401305068316353912324596758301389int * 5352868130510524287618188469141997584863830401305068316353912324596758301389int, m, 1309067949876394031138635342174990171951879743413978623105142562219150310044int, 61960776977702998169140063417602891724239602477977605337965707205495421669int);
    assert(mod_pow(3, 347918407805176678888708127944704906674343704814627156388114157786197008nat, 21888242871839275222246405745257275088696311157297823662689037894645226208583nat) == 61960776977702998169140063417602891724239602477977605337965707205495421669nat);
    lemma_fundamental_div_mod_converse(61960776977702998169140063417602891724239602477977605337965707205495421669int * 61960776977702998169140063417602891724239602477977605337965707205495421669int, m, 175397262638197601690622400347453494737454733366252526215826048774398886int, 5290602061592784627331072932888750844965599636129828596134237181791435907023int);
    lemma_fundamental_div_mod_converse(5290602061592784627331072932888750844965599636129828596134237181791435907023int * 3, m, 0int, 15871806184778353881993218798666252534896798908389485788402711545374307721069int);
    assert(mod_pow(3, 695836815610353357777416255889409813348687409629254312776228315572394017nat, 21888242871839275222246405745257275088696311157297823662689037894645226208583nat) == 15871806184778353881993218798666252534896798908389485788402711545374307721069nat);
    lemma_fundamental_div_mod_converse(15871806184778353881993218798666252534896798908389485788402711545374307721069int * 15871806184778353881993218798666252534896798908389485788402711545374307721069int, m, 11509111674344281516967574939201550831594165420151989550208888757085365119495int, 9692881688802332086402376972038487405560166913887581950659796003874716877176int);
    assert(mod_pow(3, 1391673631220706715554832511778819626697374819258508625552456631144788034nat, 21888242871839275222246405745257275088696311157297823662689037894645226208583nat) == 9692881688802332086402376972038487405560166913887581950659796003874716877176nat);
    lemma_fundamental_div_mod_converse(9692881688802332086402376972038487405560166913887581950659796003874716877176int * 9692881688802332086402376972038487405560166913887581950659796003874716877176int, m, 4292347996284122920360678970957098103063726109020568146918902551470662824007int, 13201835061636434493856325061340520657439307418954579667326364326529067882895int);
    lemma_fundamental_div_mod_converse(13201835061636434493856325061340520657439307418954579667326364326529067882895int * 3, m, 1int, 17717262313070028259322569438764286883621611099565915339290055084941977440102int);
    assert(mod_pow(3, 2783347262441413431109665023557639253394749638517017251104913262289576069nat, 21888242871839275222246405745257275088696311157297823662689037894645226208583nat) == 17717262313070028259322569438764286883621611099565915339290055084941977440102nat);
    lemma_fundamental_div_mod_converse(17717262313070028259322569438764286883621611099565915339290055084941977440102int * 17717262313070028259322569438764286883621611099565915339290055084941977440102int, m, 14341095615033912780404375602263988644677497310367470026132361254274745323430int, 18053504952247765477374752158645009620529470984803397953562271932468020770714int);
    assert(mod_pow(3, 5566694524882826862219330047115278506789499277034034502209826524579152138nat, 21888242871839275222246405745257275088696311157297823662689037894645226208583nat) == 18053504952247765477374752158645009620529470984803397953562271932468020770714nat);
    lemma_fundamental_div_mod_converse(18053504952247765477374752158645009620529470984803397953562271932468020770714int * 18053504952247765477374752158645009620529470984803397953562271932468020770714int, m, 14890598709509233602481779005676818186132926464126301182334162286716571174004int, 16207694058610234380054832162345814709638495923599837333640730619256468793464int);
    lemma_fundamental_div_mod_converse(16207694058610234380054832162345814709638495923599837333640730619256468793464int * 3, m, 2int, 4846596432152152695671684996522893951522865456203864675544116068478953963226int);
    assert(mod_pow(3, 11133389049765653724438660094230557013578998554068069004419653049158304277nat, 21888242871839275222246405745257275088696311157297823662689037894645226208583nat) == 4846596432152152695671684996522893951522865456203864675544116068478953963226nat);
    lemma_fundamental_div_mod_converse(4846596432152152695671684996522893951522865456203864675544116068478953963226int * 4846596432152152695671684996522893951522865456203864675544116068478953963226int, m, 1073155899890476086976560223909032414772055145834596525229900643480995787230int, 16688597666022887646690163467638290937986941906618104641626128998084292531986int);
    assert(mod_pow(3, 22266778099531307448877320188461114027157997108136138008839306098316608554nat, 21888242871839275222246405745257275088696311157297823662689037894645226208583nat) == 16688597666022887646690163467638290937986941906618104641626128998084292531986nat);
}

#[verifier::rlimit(100)]
pub proof fn lemma_pow_base_modulus_by_11003()
    ensures
        mod_pow(3, 1989297725333025104266691424634851866645125071098593443850680532095358194nat, 21888242871839275222246405745257275088696311157297823662689037894645226208583nat) == 6812761850782926297230824150434286700974771477980891240950366507765396668150nat,
{
    let m = 21888242871839275222246405745257275088696311157297823662689037894645226208583int;
    lemma_fundamental_div_mod_converse(1, m, 0, 1);
    assert(mod_pow(3, 0, 21888242871839275222246405745257275088696311157297823662689037894645226208583nat) == 1);
    lemma_fundamental_div_mod_converse(1int * 1int, m, 0int, 1int);
    lemma_fundamental_div_mod_converse(1int * 3, m, 0int, 3int);
    assert(mod_pow(3, 1, 21888242871839275222246405745257275088696311157297823662689037894645226208583nat) == 3);
    lemma_fundamental_div_mod_converse(3int * 3int, m, 0int, 9int);
    assert(mod_pow(3, 2, 21888242871839275222246405745257275088696311157297823662689037894645226208583nat) == 9);
    lemma_fundamental_div_mod_converse(9int * 9int, m, 0int, 81int);
    assert(mod_pow(3, 4, 21888242871839275222246405745257275088696311157297823662689037894645226208583nat) == 81);
    lemma_fundamental_div_mod_converse(81int * 81int, m, 0int, 6561int);
    lemma_fundamental_div_mod_converse(6561int * 3, m, 0int, 19683int);
    assert(mod_pow(3, 9, 21888242871839275222246405745257275088696311157297823662689037894645226208583nat) == 19683);
    lemma_fundamental_div_mod_converse(19683int * 19683int, m, 0int, 387420489int);
    assert(mod_pow(3, 18, 21888242871839275222246405745257275088696311157297823662689037894645226208583nat) == 387420489);
    lemma_fundamental_div_mod_converse(387420489int * 387420489int, m, 0int, 150094635296999121int);
    assert(mod_pow(3, 36, 21888242871839275222246405745257275088696311157297823662689037894645226208583nat) == 150094635296999121);
    lemma_fundamental_div_mod_converse(150094635296999121int * 150094635296999121int, m, 0int, 22528399544939174411840147874772641int);
    assert(mod_pow(3, 72, 21888242871839275222246405745257275088696311157297823662689037894645226208583nat) == 22528399544939174411840147874772641nat);
    lemma_fundamental_div_mod_converse(22528399544939174411840147874772641int * 22528399544939174411840147874772641int, m, 0int, 507528786056415600719754159741696356908742250191663887263627442114881int);
    assert(mod_pow(3, 144, 21888242871839275222246405745257275088696311157297823662689037894645226208583nat) == 507528786056415600719754159741696356908742250191663887263627442114881nat);
    lemma_fundamental_div_mod_converse(507528786056415600719754159741696356908742250191663887263627442114881int * 507528786056415600719754159741696356908742250191663887263627442114881int, m, 11768211371927905654957329687831421801374784460736229765057958int, 5175586227963837462710771886574896486545294642049973106312534181248409590647int);
    assert(mod_pow(3, 288, 21888242871839275222246405745257275088696311157297823662689037894645226208583nat) == 5175586227963837462710771886574896486545294642049973106312534181248409590647nat);
    lemma_fundamental_div_mod_converse(5175586227963837462710771886574896486545294642049973106312534181248409590647int * 5175586227963837462710771886574896486545294642049973106312534181248409590647int, m, 1223793657623922827591687552233328330316257438338240768927038612525857890053int, 15710061338389688073315575544712544866606798469583320051011367109056850953710int);
    assert(mod_pow(3, 576, 21888242871839275222246405745257275088696311157297823662689037894645226208583nat) == 15710061338389688073315575544712544866606798469583320051011367109056850953710nat);
    lemma_fundamental_div_mod_converse(15710061338389688073315575544712544866606798469583320051011367109056850953710int * 15710061338389688073315575544712544866606798469583320051011367109056850953710int, m, 11275735046484670938297508168768385011019360382523465203352284996627567461662int, 19549280685554594266814396484244705064322295710940438964192565303507094919154int);
    assert(mod_pow(3, 1152, 21888242871839275222246405745257275088696311157297823662689037894645226208583nat) == 19549280685554594266814396484244705064322295710940438964192565303507094919154nat);
    lemma_fundamental_div_mod_converse(19549280685554594266814396484244705064322295710940438964192565303507094919154int * 19549280685554594266814396484244705064322295710940438964192565303507094919154int, m, 17460258347840768757359640856000317955218862253969451805122871427716124026255int, 19465636131701842713233586947563776319756728743367333215445529109095397729051int);
    lemma_fundamental_div_mod_converse(19465636131701842713233586947563776319756728743367333215445529109095397729051int * 3, m, 2int, 14620422651426977695207949352176778781877563915506352320958511537995740769987int);
    assert(mod_pow(3, 2305, 21888242871839275222246405745257275088696311157297823662689037894645226208583nat) == 14620422651426977695207949352176778781877563915506352320958511537995740769987nat);
    lemma_fundamental_div_mod_converse(14620422651426977695207949352176778781877563915506352320958511537995740769987int * 14620422651426977695207949352176778781877563915506352320958511537995740769987int, m, 9765825414034115010957262344572473830428342542575484443947746819364632516319int, 6765764553504741612196826167980038824149545993463232928501765358716394614192int);
    lemma_fundamental_div_mod_converse(6765764553504741612196826167980038824149545993463232928501765358716394614192int * 3, m, 0int, 20297293660514224836590478503940116472448637980389698785505296076149183842576int);
    assert(mod_pow(3, 4611, 21888242871839275222246405745257275088696311157297823662689037894645226208583nat) == 20297293660514224836590478503940116472448637980389698785505296076149183842576nat);
    lemma_fundamental_div_mod_converse(20297293660514224836590478503940116472448637980389698785505296076149183842576int * 20297293660514224836590478503940116472448637980389698785505296076149183842576int, m, 18821982758204479577333691048659159857178880890222705824676734973373623929213int, 19859440239410298685232215359372521659467929063686363038453460474753585280597int);
    lemma_fundamental_div_mod_converse(19859440239410298685232215359372521659467929063686363038453460474753585280597int * 3, m, 2int, 15801834974552345611203834587603014801011164876463441789982305634970303424625int);
    assert(mod_pow(3, 9223, 21888242871839275222246405745257275088696311157297823662689037894645226208583nat) == 15801834974552345611203834587603014801011164876463441789982305634970303424625nat);
    lemma_fundamental_div_mod_converse(15801834974552345611203834587603014801011164876463441789982305634970303424625int * 15801834974552345611203834587603014801011164876463441789982305634970303424625int, m, 11407859005632622380623136888336843357197266932479597489337074652638468669653int, 878697372674202944160476432817603653775423845481133561716722421765956158926int);
    assert(mod_pow(3, 18446, 21888242871839275222246405745257275088696311157297823662689037894645226208583nat) == 878697372674202944160476432817603653775423845481133561716722421765956158926nat);
    lemma_fundamental_div_mod_converse(878697372674202944160476432817603653775423845481133561716722421765956158926int * 878697372674202944160476432817603653775423845481133561716722421765956158926int, m, 35275059641170116080232803197649595826460065370450049651894929689162940992int, 21626002755961359966100789742864407894455590521451253136501879121493856539140int);
    lemma_fundamental_div_mod_converse(21626002755961359966100789742864407894455590521451253136501879121493856539140int * 3, m, 2int, 21101522524205529453809557738078673505974149249758112084127561575191117200254int);
    assert(mod_pow(3, 36893, 21888242871839275222246405745257275088696311157297823662689037894645226208583nat) == 21101522524205529453809557738078673505974149249758112084127561575191117200254nat);
    lemma_fundamental_div_mod_converse(21101522524205529453809557738078673505974149249758112084127561575191117200254int * 21101522524205529453809557738078673505974149249758112084127561575191117200254int, m, 20343078950957234984077997658470337919321116316056831382538583753129211656460int, 19711732514998020126090703442582664789847832272178014947093469891512638268336int);
    lemma_fundamental_div_mod_converse(19711732514998020126090703442582664789847832272178014947093469891512638268336int * 3, m, 2int, 15358711801315509933779298837233444192150874501938397515902333885247462387842int);
    assert(mod_pow(3, 73787, 21888242871839275222246405745257275088696311157297823662689037894645226208583nat) == 15358711801315509933779298837233444192150874501938397515902333885247462387842nat);
    lemma_fundamental_div_mod_converse(15358711801315509933779298837233444192150874501938397515902333885247462387842int * 15358711801315509933779298837233444192150874501938397515902333885247462387842int, m, 10777019862994896048682841166516963224002914619016196552723451129855610240572int, 13480818022221120783412133353776769529810422757227391606547658612404348187488int);
    assert(mod_pow(3, 147574, 21888242871839275222246405745257275088696311157297823662689037894645226208583nat) == 13480818022221120783412133353776769529810422757227391606547658612404348187488nat);
    lemma_fundamental_div_mod_converse(13480818022221120783412133353776769529810422757227391606547658612404348187488int * 13480818022221120783412133353776769529810422757227391606547658612404348187488int, m, 8302742966273141556822654710479855085994183681333863264535227786735072396932int, 8488297197047435094201243460488771988063435264997514089386545884378398482788int);
    assert(mod_pow(3, 295148, 21888242871839275222246405745257275088696311157297823662689037894645226208583nat) == 8488297197047435094201243460488771988063435264997514089386545884378398482788nat);
    lemma_fundamental_div_mod_converse(8488297197047435094201243460488771988063435264997514089386545884378398482788int * 8488297197047435094201243460488771988063435264997514089386545884378398482788int, m, 3291775850957051327868583712951960252921729400500273531700034093913838071099int, 16747217972348416592043797540027108237294296003836201101339181361250574210227int);
    lemma_fundamental_div_mod_converse(16747217972348416592043797540027108237294296003836201101339181361250574210227int * 3, m, 2int, 6465168173366699331638581129566774534490265696912955978639468294461270213515int);
    assert(mod_pow(3, 590297, 21888242871839275222246405745257275088696311157297823662689037894645226208583nat) == 6465168173366699331638581129566774534490265696912955978639468294461270213515nat);
    lemma_fundamental_div_mod_converse(6465168173366699331638581129566774534490265696912955978639468294461270213515int * 6465168173366699331638581129566774534490265696912955978639468294461270213515int, m, 1909627910959002088445743914922245495278283148974990276509945307841532456205int, 20051783938893144356888377944599842532882309548975326034252598328482046047710int);
    assert(mod_pow(3, 1180594, 21888242871839275222246405745257275088696311157297823662689037894645226208583nat) == 20051783938893144356888377944599842532882309548975326034252598328482046047710nat);
    lemma_fundamental_div_mod_converse(20051783938893144356888377944599842532882309548975326034252598328482046047710int * 20051783938893144356888377944599842532882309548975326034252598328482046047710int, m, 18369406876846604922032759159515900848239743105404441752388362972341794196846int, 881512885578668422613900054821287923913954100459182611167205126215439514882int);
    assert(mod_pow(3, 2361188, 21888242871839275222246405745257275088696311157297823662689037894645226208583nat) == 881512885578668422613900054821287923913954100459182611167205126215439514882nat);
    lemma_fundamental_div_mod_converse(881512885578668422613900054821287923913954100459182611167205126215439514882int * 881512885578668422613900054821287923913954100459182611167205126215439514882int, m, 35501477756397609740975048698548254834432732600314288441094333700400120981int, 4012983489984038642155362460904149731031022838791155107814326131946358894001int);
    lemma_fundamental_div_mod_converse(4012983489984038642155362460904149731031022838791155107814326131946358894001int * 3, m, 0int, 12038950469952115926466087382712449193093068516373465323442978395839076682003int);
    assert(mod_pow(3, 4722377, 21888242871839275222246405745257275088696311157297823662689037894645226208583nat) == 12038950469952115926466087382712449193093068516373465323442978395839076682003nat);
    lemma_fundamental_div_mod_converse(12038950469952115926466087382712449193093068516373465323442978395839076682003int * 12038950469952115926466087382712449193093068516373465323442978395839076682003int, m, 6621652056156174785885133556137355197135219773499083600923934544446205769403int, 13994267814346340463930385549408560496622414939905718075298923377405506706060int);
    lemma_fundamental_div_mod_converse(13994267814346340463930385549408560496622414939905718075298923377405506706060int * 3, m, 1int, 20094560571199746169544750902968406401170933662419330563207732237571293909597int);
    assert(mod_pow(3, 9444755, 21888242871839275222246405745257275088696311157297823662689037894645226208583nat) == 20094560571199746169544750902968406401170933662419330563207732237571293909597nat);
    lemma_fundamental_div_mod_converse(20094560571199746169544750902968406401170933662419330563207732237571293909597int * 20094560571199746169544750902968406401170933662419330563207732237571293909597int, m, 18447865683595860373937670293318122915694409564786711209815150751396407915086int, 4084519771697264857331264951781530434873231029767949696621747300393620319271int);
    lemma_fundamental_div_mod_converse(4084519771697264857331264951781530434873231029767949696621747300393620319271int * 3, m, 0int, 12253559315091794571993794855344591304619693089303849089865241901180860957813int);
    assert(mod_pow(3, 18889511, 21888242871839275222246405745257275088696311157297823662689037894645226208583nat) == 12253559315091794571993794855344591304619693089303849089865241901180860957813nat);
    lemma_fundamental_div_mod_converse(12253559315091794571993794855344591304619693089303849089865241901180860957813int * 12253559315091794571993794855344591304619693089303849089865241901180860957813int, m, 6859834147840656097106223596928245716621101414636508648398464551614066069923int, 16217268831111755344311848313642639452649124465708322357042905576155104993860int);
    assert(mod_pow(3, 37779022, 21888242871839275222246405745257275088696311157297823662689037894645226208583nat) == 16217268831111755344311848313642639452649124465708322357042905576155104993860nat);
    lemma_fundamental_div_mod_converse(16217268831111755344311848313642639452649124465708322357042905576155104993860int * 16217268831111755344311848313642639452649124465708322357042905576155104993860int, m, 12015574291663042544141331934885153126075218089745651742165687058564997801578int, 9795870698498672688963622862001874707707961593507950123039080924407563155626int);
    lemma_fundamental_div_mod_converse(9795870698498672688963622862001874707707961593507950123039080924407563155626int * 3, m, 1int, 7499369223656742844644462840748349034427573623226026706428204878577463258295int);
    assert(mod_pow(3, 75558045, 21888242871839275222246405745257275088696311157297823662689037894645226208583nat) == 7499369223656742844644462840748349034427573623226026706428204878577463258295nat);
    lemma_fundamental_div_mod_converse(7499369223656742844644462840748349034427573623226026706428204878577463258295int * 7499369223656742844644462840748349034427573623226026706428204878577463258295int, m, 2569440547696372922607398332731924857886164855687517386101985749242245827037int, 18089301107293064045107396108375029512953249992686192671916160431541183448454int);
    assert(mod_pow(3, 151116090, 21888242871839275222246405745257275088696311157297823662689037894645226208583nat) == 18089301107293064045107396108375029512953249992686192671916160431541183448454nat);
    lemma_fundamental_div_mod_converse(18089301107293064045107396108375029512953249992686192671916160431541183448454int * 18089301107293064045107396108375029512953249992686192671916160431541183448454int, m, 14949706857068396900431461249180099890942952669602853716812237092721716264194int, 13893213683944940859909903417090457162779682010209679923152395337981896613014int);
    lemma_fundamental_div_mod_converse(13893213683944940859909903417090457162779682010209679923152395337981896613014int * 3, m, 1int, 19791398179995547357483304506014096399642734873331216106768148119300463630459int);
    assert(mod_pow(3, 302232181, 21888242871839275222246405745257275088696311157297823662689037894645226208583nat) == 19791398179995547357483304506014096399642734873331216106768148119300463630459nat);
    lemma_fundamental_div_mod_converse(19791398179995547357483304506014096399642734873331216106768148119300463630459int * 19791398179995547357483304506014096399642734873331216106768148119300463630459int, m, 17895426517908353681022439883375283384829521708666691731249838614378378913750int, 7722085985866003317710899094936868811521586979612024077963048081936045834431int);
    assert(mod_pow(3, 604464362, 21888242871839275222246405745257275088696311157297823662689037894645226208583nat) == 7722085985866003317710899094936868811521586979612024077963048081936045834431nat);
    lemma_fundamental_div_mod_converse(7722085985866003317710899094936868811521586979612024077963048081936045834431int * 7722085985866003317710899094936868811521586979612024077963048081936045834431int, m, 2724321560312499732773350129226144429260913161803450601084564240609493659366int, 13629481530269938953351878895125084360260839411388762922752187865524397555383int);
    assert(mod_pow(3, 1208928724, 21888242871839275222246405745257275088696311157297823662689037894645226208583nat) == 13629481530269938953351878895125084360260839411388762922752187865524397555383nat);
    lemma_fundamental_div_mod_converse(13629481530269938953351878895125084360260839411388762922752187865524397555383int * 13629481530269938953351878895125084360260839411388762922752187865524397555383int, m, 8486874340332084371167944025563892772790537654372914808605107614534238583678int, 8075194100715786605942209743372392710734320165413376314846769762358824968415int);
    assert(mod_pow(3, 2417857448, 21888242871839275222246405745257275088696311157297823662689037894645226208583nat) == 8075194100715786605942209743372392710734320165413376314846769762358824968415nat);
    lemma_fundamental_div_mod_converse(8075194100715786605942209743372392710734320165413376314846769762358824968415int * 8075194100715786605942209743372392710734320165413376314846769762358824968415int, m, 2979168320913077070552562510218878158420326911691491158378498089160185765669int, 7610234652800755548232863967664951510913856919339970315527279193451993075198int);
    lemma_fundamental_div_mod_converse(7610234652800755548232863967664951510913856919339970315527279193451993075198int * 3, m, 1int, 942461086562991422452186157737579444045259600722087283892799685710753017011int);
    assert(mod_pow(3, 4835714897, 21888242871839275222246405745257275088696311157297823662689037894645226208583nat) == 942461086562991422452186157737579444045259600722087283892799685710753017011nat);
    lemma_fundamental_div_mod_converse(942461086562991422452186157737579444045259600722087283892799685710753017011int * 942461086562991422452186157737579444045259600722087283892799685710753017011int, m, 40580365673311626135583124789383244029406707359830843887355474575592411817int, 17987705469314645053912489009877746219130312959923420042066197954411179348810int);
    assert(mod_pow(3, 9671429794, 21888242871839275222246405745257275088696311157297823662689037894645226208583nat) == 17987705469314645053912489009877746219130312959923420042066197954411179348810nat);
    lemma_fundamental_div_mod_converse(17987705469314645053912489009877746219130312959923420042066197954411179348810int * 17987705469314645053912489009877746219130312959923420042066197954411179348810int, m, 14782253191602280638021951597627244101351679676753629554005897707253089563936int, 13731336521424560227959461470251600388758118445727650413533896632465597953412int);
    lemma_fundamental_div_mod_converse(13731336521424560227959461470251600388758118445727650413533896632465597953412int * 3, m, 1int, 19305766692434405461631978665497526077578044179885127577912652002751567651653int);
    assert(mod_pow(3, 19342859589, 21888242871839275222246405745257275088696311157297823662689037894645226208583nat) == 19305766692434405461631978665497526077578044179885127577912652002751567651653nat);
    lemma_fundamental_div_mod_converse(19305766692434405461631978665497526077578044179885127577912652002751567651653int * 19305766692434405461631978665497526077578044179885127577912652002751567651653int, m, 17027983002794163377551718895073954982526681958534017715648743010272707962018int, 19988159586175269789321934266923449354290313044369547516055764317934244031915int);
    assert(mod_pow(3, 38685719178, 21888242871839275222246405745257275088696311157297823662689037894645226208583nat) == 19988159586175269789321934266923449354290313044369547516055764317934244031915nat);
    lemma_fundamental_div_mod_converse(19988159586175269789321934266923449354290313044369547516055764317934244031915int * 19988159586175269789321934266923449354290313044369547516055764317934244031915int, m, 18253019485471288813617106115251167844201000891219976392833954348486433156938int, 7716896747620753109463250806074860333922509602950564929406066242630376968371int);
    assert(mod_pow(3, 77371438356, 21888242871839275222246405745257275088696311157297823662689037894645226208583nat) == 7716896747620753109463250806074860333922509602950564929406066242630376968371nat);
    lemma_fundamental_div_mod_converse(7716896747620753109463250806074860333922509602950564929406066242630376968371int * 7716896747620753109463250806074860333922509602950564929406066242630376968371int, m, 2720661304889647013743658390458446215384245253519111108442268302781484725732int, 7741254566635032626742512488875783003768472950980110555224234693028755035885int);
    assert(mod_pow(3, 154742876712, 21888242871839275222246405745257275088696311157297823662689037894645226208583nat) == 7741254566635032626742512488875783003768472950980110555224234693028755035885nat);
    lemma_fundamental_div_mod_converse(7741254566635032626742512488875783003768472950980110555224234693028755035885int * 7741254566635032626742512488875783003768472950980110555224234693028755035885int, m, 2737863546943184216197337250230371672784503375892921708037445334080696652191int, 1158539909974603951520687507186483318593839966073613216031946284207667777872int);
    assert(mod_pow(3, 309485753424, 21888242871839275222246405745257275088696311157297823662689037894645226208583nat) == 1158539909974603951520687507186483318593839966073613216031946284207667777872nat);
    lemma_fundamental_div_mod_converse(1158539909974603951520687507186483318593839966073613216031946284207667777872int * 1158539909974603951520687507186483318593839966073613216031946284207667777872int, m, 61321264153680178294128990120412968195485727050272954410451648083756228459int, 4041972484815562483013553825544862218824886224189947359723527398482198184787int);
    assert(mod_pow(3, 618971506848, 21888242871839275222246405745257275088696311157297823662689037894645226208583nat) == 4041972484815562483013553825544862218824886224189947359723527398482198184787nat);
    lemma_fundamental_div_mod_converse(4041972484815562483013553825544862218824886224189947359723527398482198184787int * 4041972484815562483013553825544862218824886224189947359723527398482198184787int, m, 746407176842205984771192617857900516670937945819266629375728700338287906236int, 14944484592974843950610096314305911059857012840542431024423115629742115811781int);
    assert(mod_pow(3, 1237943013696, 21888242871839275222246405745257275088696311157297823662689037894645226208583nat) == 14944484592974843950610096314305911059857012840542431024423115629742115811781nat);
    lemma_fundamental_div_mod_converse(14944484592974843950610096314305911059857012840542431024423115629742115811781int * 14944484592974843950610096314305911059857012840542431024423115629742115811781int, m, 10203542653348462415087691033189392917113234403308016704617561552003331698910int, 20749522615703753492290075812270832950620803336561593605731332781533204647431int);
    assert(mod_pow(3, 2475886027392, 21888242871839275222246405745257275088696311157297823662689037894645226208583nat) == 20749522615703753492290075812270832950620803336561593605731332781533204647431nat);
    lemma_fundamental_div_mod_converse(20749522615703753492290075812270832950620803336561593605731332781533204647431int * 20749522615703753492290075812270832950620803336561593605731332781533204647431int, m, 19670043470393149592149411261879045657757464893104282607409037099964202877439int, 9493949071638206765434660817013284555570922545448133351985806166232016040824int);
    assert(mod_pow(3, 4951772054784, 21888242871839275222246405745257275088696311157297823662689037894645226208583nat) == 9493949071638206765434660817013284555570922545448133351985806166232016040824nat);
    lemma_fundamental_div_mod_converse(9493949071638206765434660817013284555570922545448133351985806166232016040824int * 9493949071638206765434660817013284555570922545448133351985806166232016040824int, m, 4117967326231787779311018085665042150499609731860993243062166802023532811313int, 21503708620320173560519294822585401340051812725503156220862341758857914499497int);
    lemma_fundamental_div_mod_converse(21503708620320173560519294822585401340051812725503156220862341758857914499497int * 3, m, 2int, 20734640117281970237065072977241653842762815861913821337208949487283291081325int);
    assert(mod_pow(3, 9903544109569, 21888242871839275222246405745257275088696311157297823662689037894645226208583nat) == 20734640117281970237065072977241653842762815861913821337208949487283291081325nat);
    lemma_fundamental_div_mod_converse(20734640117281970237065072977241653842762815861913821337208949487283291081325int * 20734640117281970237065072977241653842762815861913821337208949487283291081325int, m, 19641837095399158104216085436419795186365602346789044435858695046585887129252int, 12917869624817738351784825912441792047551018404237231031203511137441730985709int);
    assert(mod_pow(3, 19807088219138, 21888242871839275222246405745257275088696311157297823662689037894645226208583nat) == 12917869624817738351784825912441792047551018404237231031203511137441730985709nat);
    lemma_fundamental_div_mod_converse(12917869624817738351784825912441792047551018404237231031203511137441730985709int * 12917869624817738351784825912441792047551018404237231031203511137441730985709int, m, 7623789475512454834367331480192745977757593170067714109007368511054693031817int, 21862677343866745761043814169425087550605879701548578141282765135252464747370int);
    lemma_fundamental_div_mod_converse(21862677343866745761043814169425087550605879701548578141282765135252464747370int * 3, m, 2int, 21811546287921686838638631017760712474425016790050087098470219616466941824944int);
    assert(mod_pow(3, 39614176438277, 21888242871839275222246405745257275088696311157297823662689037894645226208583nat) == 21811546287921686838638631017760712474425016790050087098470219616466941824944nat);
    lemma_fundamental_div_mod_converse(21811546287921686838638631017760712474425016790050087098470219616466941824944int * 21811546287921686838638631017760712474425016790050087098470219616466941824944int, m, 21735118449468002080850571916190267595471956025969930610299452847834922843421int, 10540169938495480943429993922226800183912611839172037807841588995163545320693int);
    lemma_fundamental_div_mod_converse(10540169938495480943429993922226800183912611839172037807841588995163545320693int * 3, m, 1int, 9732266943647167608043576021423125463041524360218289760835729090845409753496int);
    assert(mod_pow(3, 79228352876555, 21888242871839275222246405745257275088696311157297823662689037894645226208583nat) == 9732266943647167608043576021423125463041524360218289760835729090845409753496nat);
    lemma_fundamental_div_mod_converse(9732266943647167608043576021423125463041524360218289760835729090845409753496int * 9732266943647167608043576021423125463041524360218289760835729090845409753496int, m, 4327301209923402279549704728592056133538450963331697507295471638886170314783int, 18519224315663610738673593906638855640004490301986907914666080263928757839527int);
    lemma_fundamental_div_mod_converse(18519224315663610738673593906638855640004490301986907914666080263928757839527int * 3, m, 2int, 11781187203312281771527970229402016742620848591365076418620165002495821101415int);
    assert(mod_pow(3, 158456705753111, 21888242871839275222246405745257275088696311157297823662689037894645226208583nat) == 11781187203312281771527970229402016742620848591365076418620165002495821101415nat);
    lemma_fundamental_div_mod_converse(11781187203312281771527970229402016742620848591365076418620165002495821101415int * 11781187203312281771527970229402016742620848591365076418620165002495821101415int, m, 6341138150383926407390322723119139385225910925170304177168080662998091339616int, 20764170961803973774996542874500866999430468841188079313167098738424607878097int);
    assert(mod_pow(3, 316913411506222, 21888242871839275222246405745257275088696311157297823662689037894645226208583nat) == 20764170961803973774996542874500866999430468841188079313167098738424607878097nat);
    lemma_fundamental_div_mod_converse(20764170961803973774996542874500866999430468841188079313167098738424607878097int * 20764170961803973774996542874500866999430468841188079313167098738424607878097int, m, 19697825826198612459556076594776586252233443170514269859687128016976303975304int, 16710291525458866628862278364898097542505652082457952754952889800126027507177int);
    lemma_fundamental_div_mod_converse(16710291525458866628862278364898097542505652082457952754952889800126027507177int * 3, m, 2int, 6354388832698049442094023604179742450124333932778210939480593611087630104365int);
    assert(mod_pow(3, 633826823012445, 21888242871839275222246405745257275088696311157297823662689037894645226208583nat) == 6354388832698049442094023604179742450124333932778210939480593611087630104365nat);
    lemma_fundamental_div_mod_converse(6354388832698049442094023604179742450124333932778210939480593611087630104365int * 6354388832698049442094023604179742450124333932778210939480593611087630104365int, m, 1844746408998735814061261504379916108400659557889359798841413384711153274284int, 17242700194854402748996807906149676390358100616436682321825135565369198073653int);
    lemma_fundamental_div_mod_converse(17242700194854402748996807906149676390358100616436682321825135565369198073653int * 3, m, 2int, 7951614840884657802497612227934478993681679534714399640097330906817141803793int);
    assert(mod_pow(3, 1267653646024891, 21888242871839275222246405745257275088696311157297823662689037894645226208583nat) == 7951614840884657802497612227934478993681679534714399640097330906817141803793nat);
    lemma_fundamental_div_mod_converse(7951614840884657802497612227934478993681679534714399640097330906817141803793int * 7951614840884657802497612227934478993681679534714399640097330906817141803793int, m, 2888682245897615085366769866388916768001904200338303136027180408936478382812int, 6805104227097627513105030231253935820754086284072739187888864268351675111453int);
    lemma_fundamental_div_mod_converse(6805104227097627513105030231253935820754086284072739187888864268351675111453int * 3, m, 0int, 20415312681292882539315090693761807462262258852218217563666592805055025334359int);
    assert(mod_pow(3, 2535307292049783, 21888242871839275222246405745257275088696311157297823662689037894645226208583nat) == 20415312681292882539315090693761807462262258852218217563666592805055025334359nat);
    lemma_fundamental_div_mod_converse(20415312681292882539315090693761807462262258852218217563666592805055025334359int * 20415312681292882539315090693761807462262258852218217563666592805055025334359int, m, 19041500695845277075668503523467085473818360298791535060138107525288760644077int, 7192117989506803208041501410090603716628846753851162252137684932531920427990int);
    assert(mod_pow(3, 5070614584099566, 21888242871839275222246405745257275088696311157297823662689037894645226208583nat) == 7192117989506803208041501410090603716628846753851162252137684932531920427990nat);
    lemma_fundamental_div_mod_converse(7192117989506803208041501410090603716628846753851162252137684932531920427990int * 7192117989506803208041501410090603716628846753851162252137684932531920427990int, m, 2363212135293744734237565025847592470064956937769076603085798191564079445451int, 4296960803036041035552844219921589974084377207453693057953599598114878934167int);
    lemma_fundamental_div_mod_converse(4296960803036041035552844219921589974084377207453693057953599598114878934167int * 3, m, 0int, 12890882409108123106658532659764769922253131622361079173860798794344636802501int);
    assert(mod_pow(3, 10141229168199133, 21888242871839275222246405745257275088696311157297823662689037894645226208583nat) == 12890882409108123106658532659764769922253131622361079173860798794344636802501nat);
    lemma_fundamental_div_mod_converse(12890882409108123106658532659764769922253131622361079173860798794344636802501int * 12890882409108123106658532659764769922253131622361079173860798794344636802501int, m, 7591968448926916002010067048302120183226508518451472446616651908743899220544int, 20863112993049121785674315337953243244885187888541753874352998886659217125849int);
    assert(mod_pow(3, 20282458336398266, 21888242871839275222246405745257275088696311157297823662689037894645226208583nat) == 20863112993049121785674315337953243244885187888541753874352998886659217125849nat);
    lemma_fundamental_div_mod_converse(20863112993049121785674315337953243244885187888541753874352998886659217125849int * 20863112993049121785674315337953243244885187888541753874352998886659217125849int, m, 19885994792242510752430811314737181963300425137172046260357681022844108295520int, 8622363169162396644230125930360592639510409095244312275380985582788179522641int);
    assert(mod_pow(3, 40564916672796532, 21888242871839275222246405745257275088696311157297823662689037894645226208583nat) == 8622363169162396644230125930360592639510409095244312275380985582788179522641nat);
    lemma_fundamental_div_mod_converse(8622363169162396644230125930360592639510409095244312275380985582788179522641int * 8622363169162396644230125930360592639510409095244312275380985582788179522641int, m, 3396579024466981556700921854956704580870673484447334172437673544052422951344int, 4987864040294377414950743012302519646664880025032552057590364208174427429329int);
    assert(mod_pow(3, 81129833345593064, 21888242871839275222246405745257275088696311157297823662689037894645226208583nat) == 4987864040294377414950743012302519646664880025032552057590364208174427429329nat);
    lemma_fundamental_div_mod_converse(4987864040294377414950743012302519646664880025032552057590364208174427429329int * 4987864040294377414950743012302519646664880025032552057590364208174427429329int, m, 1136627907051872871427723538389939997381485249355240306788716172491833036342int, 3652971655542279037843435962667302644244669407568861887289027647509778066855int);
    lemma_fundamental_div_mod_converse(3652971655542279037843435962667302644244669407568861887289027647509778066855int * 3, m, 0int, 10958914966626837113530307888001907932734008222706585661867082942529334200565int);
    assert(mod_pow(3, 162259666691186129, 21888242871839275222246405745257275088696311157297823662689037894645226208583nat) == 10958914966626837113530307888001907932734008222706585661867082942529334200565nat);
    lemma_fundamental_div_mod_converse(10958914966626837113530307888001907932734008222706585661867082942529334200565int * 10958914966626837113530307888001907932734008222706585661867082942529334200565int, m, 5486864247119249775953343728483855980848903056896821956933274560435533025264int, 8546803279845872733600524846214870990721962783201223256290995248012973678313int);
    assert(mod_pow(3, 324519333382372258, 21888242871839275222246405745257275088696311157297823662689037894645226208583nat) == 8546803279845872733600524846214870990721962783201223256290995248012973678313nat);
    lemma_fundamental_div_mod_converse(8546803279845872733600524846214870990721962783201223256290995248012973678313int * 8546803279845872733600524846214870990721962783201223256290995248012973678313int, m, 3337309748073255750539389245477830966056136072797218268671824190493960546370int, 1124079207212377815089596821877363951282758975136784691860171503066943032259int);
    lemma_fundamental_div_mod_converse(1124079207212377815089596821877363951282758975136784691860171503066943032259int * 3, m, 0int, 3372237621637133445268790465632091853848276925410354075580514509200829096777int);
    assert(mod_pow(3, 649038666764744517, 21888242871839275222246405745257275088696311157297823662689037894645226208583nat) == 3372237621637133445268790465632091853848276925410354075580514509200829096777nat);
    lemma_fundamental_div_mod_converse(3372237621637133445268790465632091853848276925410354075580514509200829096777int * 3372237621637133445268790465632091853848276925410354075580514509200829096777int, m, 519547715336058821302685793099970398841446033003066247812834291197701866453int, 17457152418972612794438176648338010112575840484736494103771885742013843421630int);
    assert(mod_pow(3, 1298077333529489034, 21888242871839275222246405745257275088696311157297823662689037894645226208583nat) == 17457152418972612794438176648338010112575840484736494103771885742013843421630nat);
    lemma_fundamental_div_mod_converse(17457152418972612794438176648338010112575840484736494103771885742013843421630int * 17457152418972612794438176648338010112575840484736494103771885742013843421630int, m, 13923098914957943148324830285235472417632855192823192405718406230604944065379int, 21523317325618156381052282789274514114936121012080796128397529617147308908943int);
    lemma_fundamental_div_mod_converse(21523317325618156381052282789274514114936121012080796128397529617147308908943int * 3, m, 2int, 20793466233175918698664036877308992167415740721646741059814513062151474309663int);
    assert(mod_pow(3, 2596154667058978069, 21888242871839275222246405745257275088696311157297823662689037894645226208583nat) == 20793466233175918698664036877308992167415740721646741059814513062151474309663nat);
    lemma_fundamental_div_mod_converse(20793466233175918698664036877308992167415740721646741059814513062151474309663int * 20793466233175918698664036877308992167415740721646741059814513062151474309663int, m, 19753446657269072249617164445667052696875316471672892034756604470840454943618int, 1927003648701534545368949589326905914221480122944622405067919442401242500275int);
    assert(mod_pow(3, 5192309334117956138, 21888242871839275222246405745257275088696311157297823662689037894645226208583nat) == 1927003648701534545368949589326905914221480122944622405067919442401242500275nat);
    lemma_fundamental_div_mod_converse(1927003648701534545368949589326905914221480122944622405067919442401242500275int * 1927003648701534545368949589326905914221480122944622405067919442401242500275int, m, 169650121476242277087716735525078787279629354140990352488221436878849555010int, 14357708367550329227868226830118353673423402924502085332509136704974382424795int);
    assert(mod_pow(3, 10384618668235912276nat, 21888242871839275222246405745257275088696311157297823662689037894645226208583nat) == 14357708367550329227868226830118353673423402924502085332509136704974382424795nat);
    lemma_fundamental_div_mod_converse(14357708367550329227868226830118353673423402924502085332509136704974382424795int * 14357708367550329227868226830118353673423402924502085332509136704974382424795int, m, 9418014537514240357423129117125588367567674653501132201536131389886104622649int, 20891402384506176017581020524965809843897736593618888347452362036699650795658int);
    assert(mod_pow(3, 20769237336471824552nat, 21888242871839275222246405745257275088696311157297823662689037894645226208583nat) == 20891402384506176017581020524965809843897736593618888347452362036699650795658nat);
    lemma_fundamental_div_mod_converse(20891402384506176017581020524965809843897736593618888347452362036699650795658int * 20891402384506176017581020524965809843897736593618888347452362036699650795658int, m, 19939960285842499987334993509314410654370563092568033081032016551989862967434int, 6961549445784250752171706497786101544584553045459643554623184517715051366942int);
    assert(mod_pow(3, 41538474672943649104nat, 21888242871839275222246405745257275088696311157297823662689037894645226208583nat) == 6961549445784250752171706497786101544584553045459643554623184517715051366942nat);
    lemma_fundamental_div_mod_converse(6961549445784250752171706497786101544584553045459643554623184517715051366942int * 6961549445784250752171706497786101544584553045459643554623184517715051366942int, m, 2214118829449311337093330928645496571118682386279507686704460739501335917098int, 5094237655264726929141472343017957980676547627237070361390623928998986379230int);
    lemma_fundamental_div_mod_converse(5094237655264726929141472343017957980676547627237070361390623928998986379230int * 3, m, 0int, 15282712965794180787424417029053873942029642881711211084171871786996959137690int);
    assert(mod_pow(3, 83076949345887298209nat, 21888242871839275222246405745257275088696311157297823662689037894645226208583nat) == 15282712965794180787424417029053873942029642881711211084171871786996959137690nat);
    lemma_fundamental_div_mod_converse(15282712965794180787424417029053873942029642881711211084171871786996959137690int * 15282712965794180787424417029053873942029642881711211084171871786996959137690int, m, 10670628837701093273354620482013199344418811978411398887058543150739863304813int, 20244035996748826071630637448878116925760930946148943127913315597407932726121int);
    assert(mod_pow(3, 166153898691774596418nat, 21888242871839275222246405745257275088696311157297823662689037894645226208583nat) == 20244035996748826071630637448878116925760930946148943127913315597407932726121nat);
    lemma_fundamental_div_mod_converse(20244035996748826071630637448878116925760930946148943127913315597407932726121int * 20244035996748826071630637448878116925760930946148943127913315597407932726121int, m, 18723339092921206344550263554244168207221501973270752022756033053336549473968int, 15933766050272969469177296504471737126660081078019193506996949134535099039297int);
    assert(mod_pow(3, 332307797383549192836nat, 21888242871839275222246405745257275088696311157297823662689037894645226208583nat) == 15933766050272969469177296504471737126660081078019193506996949134535099039297nat);
    lemma_fundamental_div_mod_converse(15933766050272969469177296504471737126660081078019193506996949134535099039297int * 15933766050272969469177296504471737126660081078019193506996949134535099039297int, m, 11599144893968249632213636641422523332022374292103629897576877604398469289378int, 5767824641382938644265123576069939171488739346011980846921425566443135922835int);
    assert(mod_pow(3, 664615594767098385672nat, 21888242871839275222246405745257275088696311157297823662689037894645226208583nat) == 5767824641382938644265123576069939171488739346011980846921425566443135922835nat);
    lemma_fundamental_div_mod_converse(5767824641382938644265123576069939171488739346011980846921425566443135922835int * 5767824641382938644265123576069939171488739346011980846921425566443135922835int, m, 1519893638266666495034183023285378454508717270400242715286907132820714728363int, 9210239980128665155060439822000872372889354282858224360361291338941850297596int);
    lemma_fundamental_div_mod_converse(9210239980128665155060439822000872372889354282858224360361291338941850297596int * 3, m, 1int, 5742477068546720242934913720745342029971751691276849418394836122180324684205int);
    assert(mod_pow(3, 1329231189534196771345nat, 21888242871839275222246405745257275088696311157297823662689037894645226208583nat) == 5742477068546720242934913720745342029971751691276849418394836122180324684205nat);
    lemma_fundamental_div_mod_converse(5742477068546720242934913720745342029971751691276849418394836122180324684205int * 5742477068546720242934913720745342029971751691276849418394836122180324684205int, m, 1506564189545377945409951217723834248537710038095858273666527811209615521841int, 6448412371862187783079354032104022021565672109576324275331224669017518320722int);
    assert(mod_pow(3, 2658462379068393542690nat, 21888242871839275222246405745257275088696311157297823662689037894645226208583nat) == 6448412371862187783079354032104022021565672109576324275331224669017518320722nat);
    lemma_fundamental_div_mod_converse(6448412371862187783079354032104022021565672109576324275331224669017518320722int * 6448412371862187783079354032104022021565672109576324275331224669017518320722int, m, 1899742357623573706617149778126947211135373510898912103679924292809908344364int, 3745248817659261458308327508681305627828871955624531541655455611200398125072int);
    lemma_fundamental_div_mod_converse(3745248817659261458308327508681305627828871955624531541655455611200398125072int * 3, m, 0int, 11235746452977784374924982526043916883486615866873594624966366833601194375216int);
    assert(mod_pow(3, 5316924758136787085381nat, 21888242871839275222246405745257275088696311157297823662689037894645226208583nat) == 11235746452977784374924982526043916883486615866873594624966366833601194375216nat);
    lemma_fundamental_div_mod_converse(11235746452977784374924982526043916883486615866873594624966366833601194375216int * 11235746452977784374924982526043916883486615866873594624966366833601194375216int, m, 5767571161137920625535391514446073458556647440982382492736617057110291239757int, 3811908799177723598690956624388992149190377369404884243581148190028850812325int);
    assert(mod_pow(3, 10633849516273574170762nat, 21888242871839275222246405745257275088696311157297823662689037894645226208583nat) == 3811908799177723598690956624388992149190377369404884243581148190028850812325nat);
    lemma_fundamental_div_mod_converse(3811908799177723598690956624388992149190377369404884243581148190028850812325int * 3811908799177723598690956624388992149190377369404884243581148190028850812325int, m, 663856335034697108701762300790614295512931806643254207785845007944164928722int, 1378159277475244392847644569439865686887529455156938946281209086477872284699int);
    assert(mod_pow(3, 21267699032547148341524nat, 21888242871839275222246405745257275088696311157297823662689037894645226208583nat) == 1378159277475244392847644569439865686887529455156938946281209086477872284699nat);
    lemma_fundamental_div_mod_converse(1378159277475244392847644569439865686887529455156938946281209086477872284699int * 1378159277475244392847644569439865686887529455156938946281209086477872284699int, m, 86773662244706581145771872121122389907243580567489568607200604839927281680int, 18543972711789548297969947552375810576606847273366307850134409215630234861161int);
    assert(mod_pow(3, 42535398065094296683048nat, 21888242871839275222246405745257275088696311157297823662689037894645226208583nat) == 18543972711789548297969947552375810576606847273366307850134409215630234861161nat);
    lemma_fundamental_div_mod_converse(18543972711789548297969947552375810576606847273366307850134409215630234861161int * 18543972711789548297969947552375810576606847273366307850134409215630234861161int, m, 15710668323130643822808610545387907775453184546982942416018288818017362076925int, 18732115919556350929071984414774793628760154260147797499088989541180805020646int);
    assert(mod_pow(3, 85070796130188593366096nat, 21888242871839275222246405745257275088696311157297823662689037894645226208583nat) == 18732115919556350929071984414774793628760154260147797499088989541180805020646nat);
    lemma_fundamental_div_mod_converse(18732115919556350929071984414774793628760154260147797499088989541180805020646int * 18732115919556350929071984414774793628760154260147797499088989541180805020646int, m, 16031079738937989360936948617004363437282524853209973762364515258081566860033int, 13210981316170961796241990815113512721965153291191713844302356701687661994077int);
    lemma_fundamental_div_mod_converse(13210981316170961796241990815113512721965153291191713844302356701687661994077int * 3, m, 1int, 17744701076673610166479566700083263077199148716277317870218032210417759773648int);
    assert(mod_pow(3, 170141592260377186732193nat, 21888242871839275222246405745257275088696311157297823662689037894645226208583nat) == 17744701076673610166479566700083263077199148716277317870218032210417759773648nat);
    lemma_fundamental_div_mod_converse(17744701076673610166479566700083263077199148716277317870218032210417759773648int * 17744701076673610166479566700083263077199148716277317870218032210417759773648int, m, 14385550185282761980525757387006822900820079217075976578027295897870803965291int, 9126046733588418838745438032495100795000687524658291449662270589673936935251int);
    lemma_fundamental_div_mod_converse(9126046733588418838745438032495100795000687524658291449662270589673936935251int * 3, m, 1int, 5489897328925981293989908352228027296305751416677050686297773874376584597170int);
    assert(mod_pow(3, 340283184520754373464387nat, 21888242871839275222246405745257275088696311157297823662689037894645226208583nat) == 5489897328925981293989908352228027296305751416677050686297773874376584597170nat);
    lemma_fundamental_div_mod_converse(5489897328925981293989908352228027296305751416677050686297773874376584597170int * 5489897328925981293989908352228027296305751416677050686297773874376584597170int, m, 1376948019931032393226702352822047944844022707815811467186236722040760866863int, 19333740773747152833541852163067014033030417464233904668714560953121241123771int);
    lemma_fundamental_div_mod_converse(19333740773747152833541852163067014033030417464233904668714560953121241123771int * 3, m, 2int, 14224736577562908056132744998686491921698630078106066680765607070073270954147int);
    assert(mod_pow(3, 680566369041508746928775nat, 21888242871839275222246405745257275088696311157297823662689037894645226208583nat) == 14224736577562908056132744998686491921698630078106066680765607070073270954147nat);
    lemma_fundamental_div_mod_converse(14224736577562908056132744998686491921698630078106066680765607070073270954147int * 14224736577562908056132744998686491921698630078106066680765607070073270954147int, m, 9244375251399664509268506140979642099711791371484119384932671348332240283347int, 10371461376012375239088809143498523277740619858837580302760601837085333130308int);
    lemma_fundamental_div_mod_converse(10371461376012375239088809143498523277740619858837580302760601837085333130308int * 3, m, 1int, 9226141256197850495020021685238294744525548419214917245592767616610773182341int);
    assert(mod_pow(3, 1361132738083017493857551nat, 21888242871839275222246405745257275088696311157297823662689037894645226208583nat) == 9226141256197850495020021685238294744525548419214917245592767616610773182341nat);
    lemma_fundamental_div_mod_converse(9226141256197850495020021685238294744525548419214917245592767616610773182341int * 9226141256197850495020021685238294744525548419214917245592767616610773182341int, m, 3888922604602077488617023778647011383841072617834080582377199682862070683687int, 1250528868098223648598001531127795597965169992441089170425113829034756754760int);
    lemma_fundamental_div_mod_converse(1250528868098223648598001531127795597965169992441089170425113829034756754760int * 3, m, 0int, 3751586604294670945794004593383386793895509977323267511275341487104270264280int);
    assert(mod_pow(3, 2722265476166034987715103nat, 21888242871839275222246405745257275088696311157297823662689037894645226208583nat) == 3751586604294670945794004593383386793895509977323267511275341487104270264280nat);
    lemma_fundamental_div_mod_converse(3751586604294670945794004593383386793895509977323267511275341487104270264280int * 3751586604294670945794004593383386793895509977323267511275341487104270264280int, m, 643011964547912748363225116488399100794929671102720214025128135127763179231int, 16547728919446464146553324363820297790458327334818788415027942782292624378727int);
    assert(mod_pow(3, 5444530952332069975430206nat, 21888242871839275222246405745257275088696311157297823662689037894645226208583nat) == 16547728919446464146553324363820297790458327334818788415027942782292624378727nat);
    lemma_fundamental_div_mod_converse(16547728919446464146553324363820297790458327334818788415027942782292624378727int * 16547728919446464146553324363820297790458327334818788415027942782292624378727int, m, 12510247350360977419287052820928229110635290268387352517998247549977770297314int, 20833596002650004940697775023439177099410754031418726285519072469377841494467int);
    assert(mod_pow(3, 10889061904664139950860412nat, 21888242871839275222246405745257275088696311157297823662689037894645226208583nat) == 20833596002650004940697775023439177099410754031418726285519072469377841494467nat);
    lemma_fundamental_div_mod_converse(20833596002650004940697775023439177099410754031418726285519072469377841494467int * 20833596002650004940697775023439177099410754031418726285519072469377841494467int, m, 19829765456415637277926565758449681616999937422527576513561366109134374632740int, 1105967533957532413366277426761546721282568421946635047079055067492730806669int);
    lemma_fundamental_div_mod_converse(1105967533957532413366277426761546721282568421946635047079055067492730806669int * 3, m, 0int, 3317902601872597240098832280284640163847705265839905141237165202478192420007int);
    assert(mod_pow(3, 21778123809328279901720825nat, 21888242871839275222246405745257275088696311157297823662689037894645226208583nat) == 3317902601872597240098832280284640163847705265839905141237165202478192420007nat);
    lemma_fundamental_div_mod_converse(3317902601872597240098832280284640163847705265839905141237165202478192420007int * 3317902601872597240098832280284640163847705265839905141237165202478192420007int, m, 502940219549377881275846884867053353234717949800327495504453845947713727268int, 9476280380498411166420594769756765359158245572038271795736803085956151138805int);
    lemma_fundamental_div_mod_converse(9476280380498411166420594769756765359158245572038271795736803085956151138805int * 3, m, 1int, 6540598269655958277015378564013020988778425558816991724521371363223227207832int);
    assert(mod_pow(3, 43556247618656559803441651nat, 21888242871839275222246405745257275088696311157297823662689037894645226208583nat) == 6540598269655958277015378564013020988778425558816991724521371363223227207832nat);
    lemma_fundamental_div_mod_converse(6540598269655958277015378564013020988778425558816991724521371363223227207832int * 6540598269655958277015378564013020988778425558816991724521371363223227207832int, m, 1954447690274178152606467442003504530703577065720908264857740594434331070944int, 420793439614979906411920429382095088209761212417660041328155935479807427872int);
    assert(mod_pow(3, 87112495237313119606883302nat, 21888242871839275222246405745257275088696311157297823662689037894645226208583nat) == 420793439614979906411920429382095088209761212417660041328155935479807427872nat);
    lemma_fundamental_div_mod_converse(420793439614979906411920429382095088209761212417660041328155935479807427872int * 420793439614979906411920429382095088209761212417660041328155935479807427872int, m, 8089599510558004919947902231919317209740434819433756920836839210969148814int, 6941794740013714466890972523097182917900407853569229859359237610904551377822int);
    lemma_fundamental_div_mod_converse(6941794740013714466890972523097182917900407853569229859359237610904551377822int * 3, m, 0int, 20825384220041143400672917569291548753701223560707689578077712832713654133466int);
    assert(mod_pow(3, 174224990474626239213766605nat, 21888242871839275222246405745257275088696311157297823662689037894645226208583nat) == 20825384220041143400672917569291548753701223560707689578077712832713654133466nat);
    lemma_fundamental_div_mod_converse(20825384220041143400672917569291548753701223560707689578077712832713654133466int * 20825384220041143400672917569291548753701223560707689578077712832713654133466int, m, 19814136312893306847876094825031505492828353465021701454221420888772743152661int, 11883461171619128832013381476877497983337593090870635425228741399175943683793int);
    assert(mod_pow(3, 348449980949252478427533210nat, 21888242871839275222246405745257275088696311157297823662689037894645226208583nat) == 11883461171619128832013381476877497983337593090870635425228741399175943683793nat);
    lemma_fundamental_div_mod_converse(11883461171619128832013381476877497983337593090870635425228741399175943683793int * 11883461171619128832013381476877497983337593090870635425228741399175943683793int, m, 6451712467018738047742282085563160589191033341933586284434707656015437988334int, 5090851930215778936711492887428769884453205309341113450905137955755766196127int);
    lemma_fundamental_div_mod_converse(5090851930215778936711492887428769884453205309341113450905137955755766196127int * 3, m, 0int, 15272555790647336810134478662286309653359615928023340352715413867267298588381int);
    assert(mod_pow(3, 696899961898504956855066421nat, 21888242871839275222246405745257275088696311157297823662689037894645226208583nat) == 15272555790647336810134478662286309653359615928023340352715413867267298588381nat);
    lemma_fundamental_div_mod_converse(15272555790647336810134478662286309653359615928023340352715413867267298588381int * 15272555790647336810134478662286309653359615928023340352715413867267298588381int, m, 10656449754517702644863779648466551037518883123563948721550387940194859753428int, 15413128781702684943349841780634224498065538014788299101908784442708590928637int);
    lemma_fundamental_div_mod_converse(15413128781702684943349841780634224498065538014788299101908784442708590928637int * 3, m, 2int, 2462900601429504385556713851388123316803991729769249980348277538835320368745int);
    assert(mod_pow(3, 1393799923797009913710132843nat, 21888242871839275222246405745257275088696311157297823662689037894645226208583nat) == 2462900601429504385556713851388123316803991729769249980348277538835320368745nat);
    lemma_fundamental_div_mod_converse(2462900601429504385556713851388123316803991729769249980348277538835320368745int * 2462900601429504385556713851388123316803991729769249980348277538835320368745int, m, 277129571708379753793778382722282341901467154836967534999853940365605377367int, 3661333026632901512804247452586158056873280741090549222376134466216403534064int);
    lemma_fundamental_div_mod_converse(3661333026632901512804247452586158056873280741090549222376134466216403534064int * 3, m, 0int, 10983999079898704538412742357758474170619842223271647667128403398649210602192int);
    assert(mod_pow(3, 2787599847594019827420265687nat, 21888242871839275222246405745257275088696311157297823662689037894645226208583nat) == 10983999079898704538412742357758474170619842223271647667128403398649210602192nat);
    lemma_fundamental_div_mod_converse(10983999079898704538412742357758474170619842223271647667128403398649210602192int * 10983999079898704538412742357758474170619842223271647667128403398649210602192int, m, 5512011014024237323505217886317372614151021308609407244576104245418650040036int, 12927092106652470667136919440210936657815997246365234214165665755949838375876int);
    assert(mod_pow(3, 5575199695188039654840531374nat, 21888242871839275222246405745257275088696311157297823662689037894645226208583nat) == 12927092106652470667136919440210936657815997246365234214165665755949838375876nat);
    lemma_fundamental_div_mod_converse(12927092106652470667136919440210936657815997246365234214165665755949838375876int * 12927092106652470667136919440210936657815997246365234214165665755949838375876int, m, 7634679097465366161835701891015193710171060453966243574153021520928786813217int, 3320059399372190489123530596294994285562882433160230334637247814865555525865int);
    assert(mod_pow(3, 11150399390376079309681062748nat, 21888242871839275222246405745257275088696311157297823662689037894645226208583nat) == 3320059399372190489123530596294994285562882433160230334637247814865555525865nat);
    lemma_fundamental_div_mod_converse(3320059399372190489123530596294994285562882433160230334637247814865555525865int * 3320059399372190489123530596294994285562882433160230334637247814865555525865int, m, 503594303110607879536412905721106023653752312834787716506063921520637507429int, 4838849046660995795758301435440951549407604357828305609676473141919517935118int);
    lemma_fundamental_div_mod_converse(4838849046660995795758301435440951549407604357828305609676473141919517935118int * 3, m, 0int, 14516547139982987387274904306322854648222813073484916829029419425758553805354int);
    assert(mod_pow(3, 22300798780752158619362125497nat, 21888242871839275222246405745257275088696311157297823662689037894645226208583nat) == 14516547139982987387274904306322854648222813073484916829029419425758553805354nat);
    lemma_fundamental_div_mod_converse(14516547139982987387274904306322854648222813073484916829029419425758553805354int * 14516547139982987387274904306322854648222813073484916829029419425758553805354int, m, 9627549461198048997885144216507924491600172856213916394043265361287898177130int, 524081042459830284846931585927887900003242971025971632698671546487258758526int);
    assert(mod_pow(3, 44601597561504317238724250994nat, 21888242871839275222246405745257275088696311157297823662689037894645226208583nat) == 524081042459830284846931585927887900003242971025971632698671546487258758526nat);
    lemma_fundamental_div_mod_converse(524081042459830284846931585927887900003242971025971632698671546487258758526int * 524081042459830284846931585927887900003242971025971632698671546487258758526int, m, 12548332028020054479743583270338036312985691906781836034536418881405407480int, 3835558285455389544879682358682806934898091909189334853108708045424189291836int);
    lemma_fundamental_div_mod_converse(3835558285455389544879682358682806934898091909189334853108708045424189291836int * 3, m, 0int, 11506674856366168634639047076048420804694275727568004559326124136272567875508int);
    assert(mod_pow(3, 89203195123008634477448501989nat, 21888242871839275222246405745257275088696311157297823662689037894645226208583nat) == 11506674856366168634639047076048420804694275727568004559326124136272567875508nat);
    lemma_fundamental_div_mod_converse(11506674856366168634639047076048420804694275727568004559326124136272567875508int * 11506674856366168634639047076048420804694275727568004559326124136272567875508int, m, 6049072418712771646129650721451823150249791409057141790952561783024018171162int, 8235029206836322074241545150175626368007931163777425230251819101989778774618int);
    assert(mod_pow(3, 178406390246017268954897003978nat, 21888242871839275222246405745257275088696311157297823662689037894645226208583nat) == 8235029206836322074241545150175626368007931163777425230251819101989778774618nat);
    lemma_fundamental_div_mod_converse(8235029206836322074241545150175626368007931163777425230251819101989778774618int * 8235029206836322074241545150175626368007931163777425230251819101989778774618int, m, 3098270904362853999367246742495292751389236810210815219082212472683937304119int, 9147065837074805371964737376246868666690272645160810524751173313129041992547int);
    lemma_fundamental_div_mod_converse(9147065837074805371964737376246868666690272645160810524751173313129041992547int * 3, m, 1int, 5552954639385140893647806383483330911374506778184607911564482044741899769058int);
    assert(mod_pow(3, 356812780492034537909794007957nat, 21888242871839275222246405745257275088696311157297823662689037894645226208583nat) == 5552954639385140893647806383483330911374506778184607911564482044741899769058nat);
    lemma_fundamental_div_mod_converse(5552954639385140893647806383483330911374506778184607911564482044741899769058int * 5552954639385140893647806383483330911374506778184607911564482044741899769058int, m, 1408761105567806629044106448314455902238538154422215999183105538813224634865int, 4301474663783639688334378716310505003918881587650819006088001588075230161069int);
    lemma_fundamental_div_mod_converse(4301474663783639688334378716310505003918881587650819006088001588075230161069int * 3, m, 0int, 12904423991350919065003136148931515011756644762952457018264004764225690483207int);
    assert(mod_pow(3, 713625560984069075819588015915nat, 21888242871839275222246405745257275088696311157297823662689037894645226208583nat) == 12904423991350919065003136148931515011756644762952457018264004764225690483207nat);
    lemma_fundamental_div_mod_converse(12904423991350919065003136148931515011756644762952457018264004764225690483207int * 12904423991350919065003136148931515011756644762952457018264004764225690483207int, m, 7607927211132965323848473852818823074332681454649367637425119676471523947528int, 5458696121040000689300090439141609601855758656803810289143576446628273772025int);
    assert(mod_pow(3, 1427251121968138151639176031830nat, 21888242871839275222246405745257275088696311157297823662689037894645226208583nat) == 5458696121040000689300090439141609601855758656803810289143576446628273772025nat);
    lemma_fundamental_div_mod_converse(5458696121040000689300090439141609601855758656803810289143576446628273772025int * 5458696121040000689300090439141609601855758656803810289143576446628273772025int, m, 1361341041230564023336723911922943047118838563728690099138893839992845184952int, 6665258448237223399551239628952854796530747979398456426971453293055307757609int);
    assert(mod_pow(3, 2854502243936276303278352063660nat, 21888242871839275222246405745257275088696311157297823662689037894645226208583nat) == 6665258448237223399551239628952854796530747979398456426971453293055307757609nat);
    lemma_fundamental_div_mod_converse(6665258448237223399551239628952854796530747979398456426971453293055307757609int * 6665258448237223399551239628952854796530747979398456426971453293055307757609int, m, 2029659047641249863560466129065096092108210878728531846090173018898760383252int, 9735370505840022224976698513943953179877918902920354557355341633443925544965int);
    lemma_fundamental_div_mod_converse(9735370505840022224976698513943953179877918902920354557355341633443925544965int * 3, m, 1int, 7317868645680791452683689796574584450937445551463240009376987005686550426312int);
    assert(mod_pow(3, 5709004487872552606556704127321nat, 21888242871839275222246405745257275088696311157297823662689037894645226208583nat) == 7317868645680791452683689796574584450937445551463240009376987005686550426312nat);
    lemma_fundamental_div_mod_converse(7317868645680791452683689796574584450937445551463240009376987005686550426312int * 7317868645680791452683689796574584450937445551463240009376987005686550426312int, m, 2446573798956485094429213266579198503766709355990310460534602630742999423286int, 9753725528123609231609376779341344441040380049193759172016565149007598657606int);
    assert(mod_pow(3, 11418008975745105213113408254642nat, 21888242871839275222246405745257275088696311157297823662689037894645226208583nat) == 9753725528123609231609376779341344441040380049193759172016565149007598657606nat);
    lemma_fundamental_div_mod_converse(9753725528123609231609376779341344441040380049193759172016565149007598657606int * 9753725528123609231609376779341344441040380049193759172016565149007598657606int, m, 4346404699317736753091615904186921997223476780106140071132027765392500233268int, 15873023937031175362868997027919644361214861047191435828564284218958497911992int);
    lemma_fundamental_div_mod_converse(15873023937031175362868997027919644361214861047191435828564284218958497911992int * 3, m, 2int, 3842586067414975644114179593244382906251960826978660160314776867585041318810int);
    assert(mod_pow(3, 22836017951490210426226816509285nat, 21888242871839275222246405745257275088696311157297823662689037894645226208583nat) == 3842586067414975644114179593244382906251960826978660160314776867585041318810nat);
    lemma_fundamental_div_mod_converse(3842586067414975644114179593244382906251960826978660160314776867585041318810int * 3842586067414975644114179593244382906251960826978660160314776867585041318810int, m, 674584422877017415482292176633918396051089489031525069110117420742005897760int, 20426714681649094584046193630402171924667343231559283983960095797034127342020int);
    assert(mod_pow(3, 45672035902980420852453633018570nat, 21888242871839275222246405745257275088696311157297823662689037894645226208583nat) == 20426714681649094584046193630402171924667343231559283983960095797034127342020nat);
    lemma_fundamental_div_mod_converse(20426714681649094584046193630402171924667343231559283983960095797034127342020int * 20426714681649094584046193630402171924667343231559283983960095797034127342020int, m, 19062776081597681019604623246058236603447309893485203693092636011117266419510int, 21710242307532124548173992685154825889566041800364609986994293745809217026070int);
    assert(mod_pow(3, 91344071805960841704907266037140nat, 21888242871839275222246405745257275088696311157297823662689037894645226208583nat) == 21710242307532124548173992685154825889566041800364609986994293745809217026070nat);
    lemma_fundamental_div_mod_converse(21710242307532124548173992685154825889566041800364609986994293745809217026070int * 21710242307532124548173992685154825889566041800364609986994293745809217026070int, m, 21533689287510697602924232483055503924902090033248939033775215935695419708584int, 6152705996558944725593192750845442683122576225643455114946585437026000068428int);
    assert(mod_pow(3, 182688143611921683409814532074280nat, 21888242871839275222246405745257275088696311157297823662689037894645226208583nat) == 6152705996558944725593192750845442683122576225643455114946585437026000068428nat);
    lemma_fundamental_div_mod_converse(6152705996558944725593192750845442683122576225643455114946585437026000068428int * 6152705996558944725593192750845442683122576225643455114946585437026000068428int, m, 1729503428015981455689687698696601891246925510761673152242912363963204186913int, 20862222782969368408945336383071276360718791414310293772144691166114425516905int);
    lemma_fundamental_div_mod_converse(20862222782969368408945336383071276360718791414310293772144691166114425516905int * 3, m, 2int, 18810182605229554782343197658699278904763751928335233991055997709052824133549int);
    assert(mod_pow(3, 365376287223843366819629064148561nat, 21888242871839275222246405745257275088696311157297823662689037894645226208583nat) == 18810182605229554782343197658699278904763751928335233991055997709052824133549nat);
    lemma_fundamental_div_mod_converse(18810182605229554782343197658699278904763751928335233991055997709052824133549int * 18810182605229554782343197658699278904763751928335233991055997709052824133549int, m, 16164978235749477355618332421614530252598900077509999589767750065651186441718int, 576489787006430676439875712669998851735611211070957932909638909842746469807int);
    lemma_fundamental_div_mod_converse(576489787006430676439875712669998851735611211070957932909638909842746469807int * 3, m, 0int, 1729469361019292029319627138009996555206833633212873798728916729528239409421int);
    assert(mod_pow(3, 730752574447686733639258128297123nat, 21888242871839275222246405745257275088696311157297823662689037894645226208583nat) == 1729469361019292029319627138009996555206833633212873798728916729528239409421nat);
    lemma_fundamental_div_mod_converse(1729469361019292029319627138009996555206833633212873798728916729528239409421int * 1729469361019292029319627138009996555206833633212873798728916729528239409421int, m, 136651639339797689933205119175514257701264586128438737513115256228484575538int, 18558915363018064122773221681407199123000276972632362173543965869367056112587int);
    lemma_fundamental_div_mod_converse(18558915363018064122773221681407199123000276972632362173543965869367056112587int * 3, m, 2int, 11900260345375641923826853553707047191608208603301439195253821818810715920595int);
    assert(mod_pow(3, 1461505148895373467278516256594247nat, 21888242871839275222246405745257275088696311157297823662689037894645226208583nat) == 11900260345375641923826853553707047191608208603301439195253821818810715920595nat);
    lemma_fundamental_div_mod_converse(11900260345375641923826853553707047191608208603301439195253821818810715920595int * 11900260345375641923826853553707047191608208603301439195253821818810715920595int, m, 6469966416076227661455866966083758460039148410712877315336225930270622677775int, 8801942376881299897319432874669211095320522348783355527660779948856196811200int);
    lemma_fundamental_div_mod_converse(8801942376881299897319432874669211095320522348783355527660779948856196811200int * 3, m, 1int, 4517584258804624469711892878750358197265255889052242920293301951923364225017int);
    assert(mod_pow(3, 2923010297790746934557032513188495nat, 21888242871839275222246405745257275088696311157297823662689037894645226208583nat) == 4517584258804624469711892878750358197265255889052242920293301951923364225017nat);
    lemma_fundamental_div_mod_converse(4517584258804624469711892878750358197265255889052242920293301951923364225017int * 4517584258804624469711892878750358197265255889052242920293301951923364225017int, m, 932398623996280179900000786734077001302602787025210029605702215320382599029int, 3110940346585769358562553360433939477844198990767910159096742436795801384382int);
    lemma_fundamental_div_mod_converse(3110940346585769358562553360433939477844198990767910159096742436795801384382int * 3, m, 0int, 9332821039757308075687660081301818433532596972303730477290227310387404153146int);
    assert(mod_pow(3, 5846020595581493869114065026376991nat, 21888242871839275222246405745257275088696311157297823662689037894645226208583nat) == 9332821039757308075687660081301818433532596972303730477290227310387404153146nat);
    lemma_fundamental_div_mod_converse(9332821039757308075687660081301818433532596972303730477290227310387404153146int * 9332821039757308075687660081301818433532596972303730477290227310387404153146int, m, 3979376008852624418638584233984950984589622168283078837646154773350150094702int, 9929843415669081496071546107452519079602420988795654835973540108219566470050int);
    lemma_fundamental_div_mod_converse(9929843415669081496071546107452519079602420988795654835973540108219566470050int * 3, m, 1int, 7901287375167969265968232577100282150110951809089140845231582430013473201567int);
    assert(mod_pow(3, 11692041191162987738228130052753983nat, 21888242871839275222246405745257275088696311157297823662689037894645226208583nat) == 7901287375167969265968232577100282150110951809089140845231582430013473201567nat);
    lemma_fundamental_div_mod_converse(7901287375167969265968232577100282150110951809089140845231582430013473201567int * 7901287375167969265968232577100282150110951809089140845231582430013473201567int, m, 2852231791767517894116476173399442514017055646538829286388739041387103960721int, 10673924733974164395910791786746634707300589547349710051065291399991626187146int);
    assert(mod_pow(3, 23384082382325975476456260105507966nat, 21888242871839275222246405745257275088696311157297823662689037894645226208583nat) == 10673924733974164395910791786746634707300589547349710051065291399991626187146nat);
    lemma_fundamental_div_mod_converse(10673924733974164395910791786746634707300589547349710051065291399991626187146int * 10673924733974164395910791786746634707300589547349710051065291399991626187146int, m, 5205199425721268133864098351804087273659680505086062748634788779076024409284int, 15420821538964737143034234546042770300556581147813606831022570126636269940744int);
    lemma_fundamental_div_mod_converse(15420821538964737143034234546042770300556581147813606831022570126636269940744int * 3, m, 2int, 2485978873215660984609892147613760724277121128845173167689634590618357405066int);
    assert(mod_pow(3, 46768164764651950952912520211015933nat, 21888242871839275222246405745257275088696311157297823662689037894645226208583nat) == 2485978873215660984609892147613760724277121128845173167689634590618357405066nat);
    lemma_fundamental_div_mod_converse(2485978873215660984609892147613760724277121128845173167689634590618357405066int * 2485978873215660984609892147613760724277121128845173167689634590618357405066int, m, 282347513880418334632839495186567789288944908638534453575434267100988720469int, 12150745743949770666583768182478047543730305611849768161652811115095926878929int);
    assert(mod_pow(3, 93536329529303901905825040422031866nat, 21888242871839275222246405745257275088696311157297823662689037894645226208583nat) == 12150745743949770666583768182478047543730305611849768161652811115095926878929nat);
    lemma_fundamental_div_mod_converse(12150745743949770666583768182478047543730305611849768161652811115095926878929int * 12150745743949770666583768182478047543730305611849768161652811115095926878929int, m, 6745202115975387232926043225036503996237146731965045803711517396692149156504int, 12352820681155350221918780198048418078131706886649631594508609302061609113209int);
    lemma_fundamental_div_mod_converse(12352820681155350221918780198048418078131706886649631594508609302061609113209int * 3, m, 1int, 15170219171626775443509934848887979145698809502651071120836790011539601131044int);
    assert(mod_pow(3, 187072659058607803811650080844063733nat, 21888242871839275222246405745257275088696311157297823662689037894645226208583nat) == 15170219171626775443509934848887979145698809502651071120836790011539601131044nat);
    lemma_fundamental_div_mod_converse(15170219171626775443509934848887979145698809502651071120836790011539601131044int * 15170219171626775443509934848887979145698809502651071120836790011539601131044int, m, 10514117147853733303610876316388525681596538673404417066485363906001962828909int, 3805760416753370250107743698447713948663513997238830028590032092912884203989int);
    lemma_fundamental_div_mod_converse(3805760416753370250107743698447713948663513997238830028590032092912884203989int * 3, m, 0int, 11417281250260110750323231095343141845990541991716490085770096278738652611967int);
    assert(mod_pow(3, 374145318117215607623300161688127467nat, 21888242871839275222246405745257275088696311157297823662689037894645226208583nat) == 11417281250260110750323231095343141845990541991716490085770096278738652611967nat);
    lemma_fundamental_div_mod_converse(11417281250260110750323231095343141845990541991716490085770096278738652611967int * 11417281250260110750323231095343141845990541991716490085770096278738652611967int, m, 5955448864068062497344241272227127778234292712182303697916576055341822254033int, 16975665618692892423329809986091727640267361181404324052740315271663800643850int);
    assert(mod_pow(3, 748290636234431215246600323376254934nat, 21888242871839275222246405745257275088696311157297823662689037894645226208583nat) == 16975665618692892423329809986091727640267361181404324052740315271663800643850nat);
    lemma_fundamental_div_mod_converse(16975665618692892423329809986091727640267361181404324052740315271663800643850int * 16975665618692892423329809986091727640267361181404324052740315271663800643850int, m, 13165662720620966175955716007889521426172314476451734062702634826964597451914int, 17604300076683094023782169819053487193410375762875419464877464094381666244638int);
    assert(mod_pow(3, 1496581272468862430493200646752509868nat, 21888242871839275222246405745257275088696311157297823662689037894645226208583nat) == 17604300076683094023782169819053487193410375762875419464877464094381666244638nat);
    lemma_fundamental_div_mod_converse(17604300076683094023782169819053487193410375762875419464877464094381666244638int * 17604300076683094023782169819053487193410375762875419464877464094381666244638int, m, 14158805848624177357369658519360013826172869913717786820200630998214273364701int, 15048389457179591701832657637769245077301920326924665955109952005725008322361int);
    lemma_fundamental_div_mod_converse(15048389457179591701832657637769245077301920326924665955109952005725008322361int * 3, m, 2int, 1368682627860224661005161422793185054513138666178350539951780227884572549917int);
    assert(mod_pow(3, 2993162544937724860986401293505019737nat, 21888242871839275222246405745257275088696311157297823662689037894645226208583nat) == 1368682627860224661005161422793185054513138666178350539951780227884572549917nat);
    lemma_fundamental_div_mod_converse(1368682627860224661005161422793185054513138666178350539951780227884572549917int * 1368682627860224661005161422793185054513138666178350539951780227884572549917int, m, 85584400117219503461358469688426530265086261094799012633302754265875262920int, 5371508872483086412407291292144484203229671157008289739175662472783571064529int);
    assert(mod_pow(3, 5986325089875449721972802587010039474nat, 21888242871839275222246405745257275088696311157297823662689037894645226208583nat) == 5371508872483086412407291292144484203229671157008289739175662472783571064529nat);
    lemma_fundamental_div_mod_converse(5371508872483086412407291292144484203229671157008289739175662472783571064529int * 5371508872483086412407291292144484203229671157008289739175662472783571064529int, m, 1318201179332033952231488725487766462929998398088661273028428147860142117822int, 7015210101327185793507490096055913611462610041902653053047754449269148325615int);
    assert(mod_pow(3, 11972650179750899443945605174020078948nat, 21888242871839275222246405745257275088696311157297823662689037894645226208583nat) == 7015210101327185793507490096055913611462610041902653053047754449269148325615nat);
    lemma_fundamental_div_mod_converse(7015210101327185793507490096055913611462610041902653053047754449269148325615int * 7015210101327185793507490096055913611462610041902653053047754449269148325615int, m, 2248383895131166715701255554281331351816291368961625317245560600055527985848int, 14801045535669760038154791857153785295959717503284913675512177760402544994841int);
    assert(mod_pow(3, 23945300359501798887891210348040157896nat, 21888242871839275222246405745257275088696311157297823662689037894645226208583nat) == 14801045535669760038154791857153785295959717503284913675512177760402544994841nat);
    lemma_fundamental_div_mod_converse(14801045535669760038154791857153785295959717503284913675512177760402544994841int * 14801045535669760038154791857153785295959717503284913675512177760402544994841int, m, 10008612853561650023821239003532967280017897114187601776321882169892027361602int, 9374186434228688939698078540094514961520214232314866375271909997785499585315int);
    lemma_fundamental_div_mod_converse(9374186434228688939698078540094514961520214232314866375271909997785499585315int * 3, m, 1int, 6234316430846791596847829875026269795864331539646775463126692098711272547362int);
    assert(mod_pow(3, 47890600719003597775782420696080315793nat, 21888242871839275222246405745257275088696311157297823662689037894645226208583nat) == 6234316430846791596847829875026269795864331539646775463126692098711272547362nat);
    lemma_fundamental_div_mod_converse(6234316430846791596847829875026269795864331539646775463126692098711272547362int * 6234316430846791596847829875026269795864331539646775463126692098711272547362int, m, 1775688509466008979498192921421748388841393467605806949682637242487687709388int, 18890826207532989430424876983586498509007030484390902130824638923881357881840int);
    lemma_fundamental_div_mod_converse(18890826207532989430424876983586498509007030484390902130824638923881357881840int * 3, m, 2int, 12895992878920417846781819460244945349628469138577059067095840982353621228354int);
    assert(mod_pow(3, 95781201438007195551564841392160631587nat, 21888242871839275222246405745257275088696311157297823662689037894645226208583nat) == 12895992878920417846781819460244945349628469138577059067095840982353621228354nat);
    lemma_fundamental_div_mod_converse(12895992878920417846781819460244945349628469138577059067095840982353621228354int * 12895992878920417846781819460244945349628469138577059067095840982353621228354int, m, 7597989171946324152595383151414051535942054695051208049412873979513185156933int, 9036952694130167517271422610160807339779403522618915721993686430640366993377int);
    lemma_fundamental_div_mod_converse(9036952694130167517271422610160807339779403522618915721993686430640366993377int * 3, m, 1int, 5222615210551227329567862085225146930641899410558923503292021397275874771548int);
    assert(mod_pow(3, 191562402876014391103129682784321263175nat, 21888242871839275222246405745257275088696311157297823662689037894645226208583nat) == 5222615210551227329567862085225146930641899410558923503292021397275874771548nat);
    lemma_fundamental_div_mod_converse(5222615210551227329567862085225146930641899410558923503292021397275874771548int * 5222615210551227329567862085225146930641899410558923503292021397275874771548int, m, 1246135187606727017156266629229604017064267758419302710514041694352586399984int, 11316410103051939211039014824377166027944005357740285396394875331055738453632int);
    assert(mod_pow(3, 383124805752028782206259365568642526350nat, 21888242871839275222246405745257275088696311157297823662689037894645226208583nat) == 11316410103051939211039014824377166027944005357740285396394875331055738453632nat);
    lemma_fundamental_div_mod_converse(11316410103051939211039014824377166027944005357740285396394875331055738453632int * 11316410103051939211039014824377166027944005357740285396394875331055738453632int, m, 5850681499208665712294349083388116669551075693160552333043606822099707778399int, 4181576309703354998585164736901809864181520415993036789621602842665898192807int);
    lemma_fundamental_div_mod_converse(4181576309703354998585164736901809864181520415993036789621602842665898192807int * 3, m, 0int, 12544728929110064995755494210705429592544561247979110368864808527997694578421int);
    assert(mod_pow(3, 766249611504057564412518731137285052701nat, 21888242871839275222246405745257275088696311157297823662689037894645226208583nat) == 12544728929110064995755494210705429592544561247979110368864808527997694578421nat);
    lemma_fundamental_div_mod_converse(12544728929110064995755494210705429592544561247979110368864808527997694578421int * 12544728929110064995755494210705429592544561247979110368864808527997694578421int, m, 7189714808369498588792315020775090668607378851260320883234967623005864592948int, 20006193525462512950823259170376391082139281594583993700805594750936279980557int);
    assert(mod_pow(3, 1532499223008115128825037462274570105402nat, 21888242871839275222246405745257275088696311157297823662689037894645226208583nat) == 20006193525462512950823259170376391082139281594583993700805594750936279980557nat);
    lemma_fundamental_div_mod_converse(20006193525462512950823259170376391082139281594583993700805594750936279980557int * 20006193525462512950823259170376391082139281594583993700805594750936279980557int, m, 18285971227649542205370516690139320951503495795256236458864826870645434703207int, 3893044605572266484601284203396191629688786261689241922742015785669817004568int);
    lemma_fundamental_div_mod_converse(3893044605572266484601284203396191629688786261689241922742015785669817004568int * 3, m, 0int, 11679133816716799453803852610188574889066358785067725768226047357009451013704int);
    assert(mod_pow(3, 3064998446016230257650074924549140210805nat, 21888242871839275222246405745257275088696311157297823662689037894645226208583nat) == 11679133816716799453803852610188574889066358785067725768226047357009451013704nat);
    lemma_fundamental_div_mod_converse(11679133816716799453803852610188574889066358785067725768226047357009451013704int * 11679133816716799453803852610188574889066358785067725768226047357009451013704int, m, 6231754988623077298449711187519290335619128069939949805943793792217363274168int, 13893869825741575665019429975132148718444347806732041248364962111427412015672int);
    assert(mod_pow(3, 6129996892032460515300149849098280421610nat, 21888242871839275222246405745257275088696311157297823662689037894645226208583nat) == 13893869825741575665019429975132148718444347806732041248364962111427412015672nat);
    lemma_fundamental_div_mod_converse(13893869825741575665019429975132148718444347806732041248364962111427412015672int * 13893869825741575665019429975132148718444347806732041248364962111427412015672int, m, 8819329165202700829017850768640285467108977632160602598995177058209418856886int, 5678605220400258097861920397337602431928378975397746091653776392462311759046int);
    lemma_fundamental_div_mod_converse(5678605220400258097861920397337602431928378975397746091653776392462311759046int * 3, m, 0int, 17035815661200774293585761192012807295785136926193238274961329177386935277138int);
    assert(mod_pow(3, 12259993784064921030600299698196560843221nat, 21888242871839275222246405745257275088696311157297823662689037894645226208583nat) == 17035815661200774293585761192012807295785136926193238274961329177386935277138nat);
    lemma_fundamental_div_mod_converse(17035815661200774293585761192012807295785136926193238274961329177386935277138int * 17035815661200774293585761192012807295785136926193238274961329177386935277138int, m, 13259128059831619956891907314170076696476969663327915812848615163583775494689int, 10847832117680773139364501691917493663427954972064982331881281449012142755357int);
    assert(mod_pow(3, 24519987568129842061200599396393121686442nat, 21888242871839275222246405745257275088696311157297823662689037894645226208583nat) == 10847832117680773139364501691917493663427954972064982331881281449012142755357nat);
    lemma_fundamental_div_mod_converse(10847832117680773139364501691917493663427954972064982331881281449012142755357int * 10847832117680773139364501691917493663427954972064982331881281449012142755357int, m, 5376194989355864402776258505780559864332049920346657769889914503535088659481int, 11506218936602609747122271239464172064235306640580088545847011817974385672026int);
    assert(mod_pow(3, 49039975136259684122401198792786243372884nat, 21888242871839275222246405745257275088696311157297823662689037894645226208583nat) == 11506218936602609747122271239464172064235306640580088545847011817974385672026nat);
    lemma_fundamental_div_mod_converse(11506218936602609747122271239464172064235306640580088545847011817974385672026int * 11506218936602609747122271239464172064235306640580088545847011817974385672026int, m, 6048593073104340243199429579388527239915108393214978334146789863276328406982int, 19179841698925681193260654724782209546968879480595549986989599935783593418170int);
    assert(mod_pow(3, 98079950272519368244802397585572486745768nat, 21888242871839275222246405745257275088696311157297823662689037894645226208583nat) == 19179841698925681193260654724782209546968879480595549986989599935783593418170nat);
    lemma_fundamental_div_mod_converse(19179841698925681193260654724782209546968879480595549986989599935783593418170int * 19179841698925681193260654724782209546968879480595549986989599935783593418170int, m, 16806571900256717566151632247723499667552896523858086072118656928840840872912int, 19227918515190266025542242758531671390950363213634491930453574096714579545204int);
    assert(mod_pow(3, 196159900545038736489604795171144973491536nat, 21888242871839275222246405745257275088696311157297823662689037894645226208583nat) == 19227918515190266025542242758531671390950363213634491930453574096714579545204nat);
    lemma_fundamental_div_mod_converse(19227918515190266025542242758531671390950363213634491930453574096714579545204int * 19227918515190266025542242758531671390950363213634491930453574096714579545204int, m, 16890933301112880487435896993477003840255719778006139256399563538213561229138int, 9237153693000258446243040198073887728182709081292850403771093388918434110162int);
    lemma_fundamental_div_mod_converse(9237153693000258446243040198073887728182709081292850403771093388918434110162int * 3, m, 1int, 5823218207161500116482714848964388095851816086580727548624242272110076121903int);
    assert(mod_pow(3, 392319801090077472979209590342289946983073nat, 21888242871839275222246405745257275088696311157297823662689037894645226208583nat) == 5823218207161500116482714848964388095851816086580727548624242272110076121903nat);
    lemma_fundamental_div_mod_converse(5823218207161500116482714848964388095851816086580727548624242272110076121903int * 5823218207161500116482714848964388095851816086580727548624242272110076121903int, m, 1549227614421464966213174385522507676059802020204168791185256207643837513939int, 5120831673639822823605041875086721863146370907244267631249652635838732402972int);
    lemma_fundamental_div_mod_converse(5120831673639822823605041875086721863146370907244267631249652635838732402972int * 3, m, 0int, 15362495020919468470815125625260165589439112721732802893748957907516197208916int);
    assert(mod_pow(3, 784639602180154945958419180684579893966147nat, 21888242871839275222246405745257275088696311157297823662689037894645226208583nat) == 15362495020919468470815125625260165589439112721732802893748957907516197208916nat);
    lemma_fundamental_div_mod_converse(15362495020919468470815125625260165589439112721732802893748957907516197208916int * 15362495020919468470815125625260165589439112721732802893748957907516197208916int, m, 10782329794568100384912071406857189879938812581359383988392119867378222735174int, 3078393310296055376632055233602671407739465255669833182665632683456455096614int);
    assert(mod_pow(3, 1569279204360309891916838361369159787932294nat, 21888242871839275222246405745257275088696311157297823662689037894645226208583nat) == 3078393310296055376632055233602671407739465255669833182665632683456455096614nat);
    lemma_fundamental_div_mod_converse(3078393310296055376632055233602671407739465255669833182665632683456455096614int * 3078393310296055376632055233602671407739465255669833182665632683456455096614int, m, 432949571528543280565321117886926657428357031596417046602209849249774845937int, 3757631698699884817706179432447214671945160574607657227376178460562622187725int);
    lemma_fundamental_div_mod_converse(3757631698699884817706179432447214671945160574607657227376178460562622187725int * 3, m, 0int, 11272895096099654453118538297341644015835481723822971682128535381687866563175int);
    assert(mod_pow(3, 3138558408720619783833676722738319575864589nat, 21888242871839275222246405745257275088696311157297823662689037894645226208583nat) == 11272895096099654453118538297341644015835481723822971682128535381687866563175nat);
    lemma_fundamental_div_mod_converse(11272895096099654453118538297341644015835481723822971682128535381687866563175int * 11272895096099654453118538297341644015835481723822971682128535381687866563175int, m, 5805772742551317626911492518245942342242751014395873882175025485530226137611int, 14606036388290078342528826950929456324639891271700161397574628632832718765412int);
    lemma_fundamental_div_mod_converse(14606036388290078342528826950929456324639891271700161397574628632832718765412int * 3, m, 2int, 41623421191684583093669362273818796527051500504836867345810109207703879070int);
    assert(mod_pow(3, 6277116817441239567667353445476639151729179nat, 21888242871839275222246405745257275088696311157297823662689037894645226208583nat) == 41623421191684583093669362273818796527051500504836867345810109207703879070nat);
    lemma_fundamental_div_mod_converse(41623421191684583093669362273818796527051500504836867345810109207703879070int * 41623421191684583093669362273818796527051500504836867345810109207703879070int, m, 79152502183232308191814223853533082574415242660959540872491023688315038int, 5252015405202109054274380617743915340329334101742582875730776716036780493746int);
    lemma_fundamental_div_mod_converse(5252015405202109054274380617743915340329334101742582875730776716036780493746int * 3, m, 0int, 15756046215606327162823141853231746020988002305227748627192330148110341481238int);
    assert(mod_pow(3, 12554233634882479135334706890953278303458359nat, 21888242871839275222246405745257275088696311157297823662689037894645226208583nat) == 15756046215606327162823141853231746020988002305227748627192330148110341481238nat);
    lemma_fundamental_div_mod_converse(15756046215606327162823141853231746020988002305227748627192330148110341481238int * 15756046215606327162823141853231746020988002305227748627192330148110341481238int, m, 11341842001749576477292558786182173675470477596085265730576603107274415135688int, 21697565525944609685995947991276043883698699883300079312231302899038170802540int);
    lemma_fundamental_div_mod_converse(21697565525944609685995947991276043883698699883300079312231302899038170802540int * 3, m, 2int, 21316210834155278613495032483313581473703477335304590611315832907824059990454int);
    assert(mod_pow(3, 25108467269764958270669413781906556606916719nat, 21888242871839275222246405745257275088696311157297823662689037894645226208583nat) == 21316210834155278613495032483313581473703477335304590611315832907824059990454nat);
    lemma_fundamental_div_mod_converse(21316210834155278613495032483313581473703477335304590611315832907824059990454int * 21316210834155278613495032483313581473703477335304590611315832907824059990454int, m, 20759128404534974367847645881279118046563187970253419873995691710244308120258int, 5523912480180115534559252437756003435983222205285234578904001680937615351702int);
    assert(mod_pow(3, 50216934539529916541338827563813113213833438nat, 21888242871839275222246405745257275088696311157297823662689037894645226208583nat) == 5523912480180115534559252437756003435983222205285234578904001680937615351702nat);
    lemma_fundamental_div_mod_converse(5523912480180115534559252437756003435983222205285234578904001680937615351702int * 5523912480180115534559252437756003435983222205285234578904001680937615351702int, m, 1394063893906599736122589097392213619360224948617424526617789629678883820082int, 18329592182893152201606272771183913051301800604018859594342260152412778132998int);
    lemma_fundamental_div_mod_converse(18329592182893152201606272771183913051301800604018859594342260152412778132998int * 3, m, 2int, 11212290805000906160326006823037188976512779497460931457648704667947881981828int);
    assert(mod_pow(3, 100433869079059833082677655127626226427666877nat, 21888242871839275222246405745257275088696311157297823662689037894645226208583nat) == 11212290805000906160326006823037188976512779497460931457648704667947881981828nat);
    lemma_fundamental_div_mod_converse(11212290805000906160326006823037188976512779497460931457648704667947881981828int * 11212290805000906160326006823037188976512779497460931457648704667947881981828int, m, 5743515632204969329284620847564972748907340701101015184143829669404537785291int, 12926333429224012696616181711247666837466327367035845638574786413301286868931int);
    assert(mod_pow(3, 200867738158119666165355310255252452855333754nat, 21888242871839275222246405745257275088696311157297823662689037894645226208583nat) == 12926333429224012696616181711247666837466327367035845638574786413301286868931nat);
    lemma_fundamental_div_mod_converse(12926333429224012696616181711247666837466327367035845638574786413301286868931int * 12926333429224012696616181711247666837466327367035845638574786413301286868931int, m, 7633782981202528833658653584238993885844289192670837032495609718163840677910int, 5501801509258988200746191576567641778836675355987853278092215842707792581231int);
    lemma_fundamental_div_mod_converse(5501801509258988200746191576567641778836675355987853278092215842707792581231int * 3, m, 0int, 16505404527776964602238574729702925336510026067963559834276647528123377743693int);
    assert(mod_pow(3, 401735476316239332330710620510504905710667509nat, 21888242871839275222246405745257275088696311157297823662689037894645226208583nat) == 16505404527776964602238574729702925336510026067963559834276647528123377743693nat);
    lemma_fundamental_div_mod_converse(16505404527776964602238574729702925336510026067963559834276647528123377743693int * 16505404527776964602238574729702925336510026067963559834276647528123377743693int, m, 12446333870685348913056014658573140563065056824171663235782672658448797261476int, 1779364504400209494602619282091428800895449064580458575108998844182834829741int);
    lemma_fundamental_div_mod_converse(1779364504400209494602619282091428800895449064580458575108998844182834829741int * 3, m, 0int, 5338093513200628483807857846274286402686347193741375725326996532548504489223int);
    assert(mod_pow(3, 803470952632478664661421241021009811421335019nat, 21888242871839275222246405745257275088696311157297823662689037894645226208583nat) == 5338093513200628483807857846274286402686347193741375725326996532548504489223nat);
    lemma_fundamental_div_mod_converse(5338093513200628483807857846274286402686347193741375725326996532548504489223int * 5338093513200628483807857846274286402686347193741375725326996532548504489223int, m, 1301851524698481433310874679054924631463272476611590606311748738903215116684int, 18590075313437531842359919040736665217056519956536560407601216946914855844957int);
    lemma_fundamental_div_mod_converse(18590075313437531842359919040736665217056519956536560407601216946914855844957int * 3, m, 2int, 11993740196634045082586945631695445473776937555014033897425575051454115117705int);
    assert(mod_pow(3, 1606941905264957329322842482042019622842670039nat, 21888242871839275222246405745257275088696311157297823662689037894645226208583nat) == 11993740196634045082586945631695445473776937555014033897425575051454115117705nat);
    lemma_fundamental_div_mod_converse(11993740196634045082586945631695445473776937555014033897425575051454115117705int * 11993740196634045082586945631695445473776937555014033897425575051454115117705int, m, 6572012415369709519616415506102249537863752400687285185922465313280669516611int, 312356435637025664700488513252738373789881691367279120516129257487135194812int);
    assert(mod_pow(3, 3213883810529914658645684964084039245685340078nat, 21888242871839275222246405745257275088696311157297823662689037894645226208583nat) == 312356435637025664700488513252738373789881691367279120516129257487135194812nat);
    lemma_fundamental_div_mod_converse(312356435637025664700488513252738373789881691367279120516129257487135194812int * 312356435637025664700488513252738373789881691367279120516129257487135194812int, m, 4457486306924773836204796882945642074424902518504820018658063458926004207int, 3615770846898827042812931440787021713472043531918935351306066890896674206663int);
    lemma_fundamental_div_mod_converse(3615770846898827042812931440787021713472043531918935351306066890896674206663int * 3, m, 0int, 10847312540696481128438794322361065140416130595756806053918200672690022619989int);
    assert(mod_pow(3, 6427767621059829317291369928168078491370680157nat, 21888242871839275222246405745257275088696311157297823662689037894645226208583nat) == 10847312540696481128438794322361065140416130595756806053918200672690022619989nat);
    lemma_fundamental_div_mod_converse(10847312540696481128438794322361065140416130595756806053918200672690022619989int * 10847312540696481128438794322361065140416130595756806053918200672690022619989int, m, 5375679996082928768129986860704796132564385680871300836155433104699795659533int, 2847782489453548710898584013769554640190252004778276505639105995166391988382int);
    lemma_fundamental_div_mod_converse(2847782489453548710898584013769554640190252004778276505639105995166391988382int * 3, m, 0int, 8543347468360646132695752041308663920570756014334829516917317985499175965146int);
    assert(mod_pow(3, 12855535242119658634582739856336156982741360315nat, 21888242871839275222246405745257275088696311157297823662689037894645226208583nat) == 8543347468360646132695752041308663920570756014334829516917317985499175965146nat);
    lemma_fundamental_div_mod_converse(8543347468360646132695752041308663920570756014334829516917317985499175965146int * 8543347468360646132695752041308663920570756014334829516917317985499175965146int, m, 3334611480350911932371240015242709126981342797100126687156338328612006916708int, 5483018971615607115709379996255465480019687885139429692052441129365891096552int);
    assert(mod_pow(3, 25711070484239317269165479712672313965482720630nat, 21888242871839275222246405745257275088696311157297823662689037894645226208583nat) == 5483018971615607115709379996255465480019687885139429692052441129365891096552nat);
    lemma_fundamental_div_mod_converse(5483018971615607115709379996255465480019687885139429692052441129365891096552int * 5483018971615607115709379996255465480019687885139429692052441129365891096552int, m, 1373499792519911201692124021568211187195416633409921449054852733567452726950int, 3578142730329200450850301429440275737415801135637526591020046752992140876854int);
    lemma_fundamental_div_mod_converse(3578142730329200450850301429440275737415801135637526591020046752992140876854int * 3, m, 0int, 10734428190987601352550904288320827212247403406912579773060140258976422630562int);
    assert(mod_pow(3, 51422140968478634538330959425344627930965441261nat, 21888242871839275222246405745257275088696311157297823662689037894645226208583nat) == 10734428190987601352550904288320827212247403406912579773060140258976422630562nat);
    lemma_fundamental_div_mod_converse(10734428190987601352550904288320827212247403406912579773060140258976422630562int * 10734428190987601352550904288320827212247403406912579773060140258976422630562int, m, 5264376371468264445430262538917837125020687565249195799452139200077734832119int, 12524756477278740291851714494070733375800088658060578216849261476637554558467int);
    lemma_fundamental_div_mod_converse(12524756477278740291851714494070733375800088658060578216849261476637554558467int * 3, m, 1int, 15686026559996945653308737736954925038703954816883910987858746535267437466818int);
    assert(mod_pow(3, 102844281936957269076661918850689255861930882523nat, 21888242871839275222246405745257275088696311157297823662689037894645226208583nat) == 15686026559996945653308737736954925038703954816883910987858746535267437466818nat);
    lemma_fundamental_div_mod_converse(15686026559996945653308737736954925038703954816883910987858746535267437466818int * 15686026559996945653308737736954925038703954816883910987858746535267437466818int, m, 11241260008015154186462256110161520429013261081028434506906031657360586913519int, 7914254618014682612765534684215349935647786393104251515757621826518374511547int);
    lemma_fundamental_div_mod_converse(7914254618014682612765534684215349935647786393104251515757621826518374511547int * 3, m, 1int, 1854520982204772616050198307388774718247048022014930884583827584909897326058int);
    assert(mod_pow(3, 205688563873914538153323837701378511723861765047nat, 21888242871839275222246405745257275088696311157297823662689037894645226208583nat) == 1854520982204772616050198307388774718247048022014930884583827584909897326058nat);
    lemma_fundamental_div_mod_converse(1854520982204772616050198307388774718247048022014930884583827584909897326058int * 1854520982204772616050198307388774718247048022014930884583827584909897326058int, m, 157127645813112889877953439448579319391867658595788986363581320900652624597int, 4942232165627675254838580126689426691801817679891776566701285214448047503313int);
    assert(mod_pow(3, 411377127747829076306647675402757023447723530094nat, 21888242871839275222246405745257275088696311157297823662689037894645226208583nat) == 4942232165627675254838580126689426691801817679891776566701285214448047503313nat);
    lemma_fundamental_div_mod_converse(4942232165627675254838580126689426691801817679891776566701285214448047503313int * 4942232165627675254838580126689426691801817679891776566701285214448047503313int, m, 1115925975510355157899078802466428482104094514462211496863815086733425309513int, 16309255154744564590930980970402195394008451337341086225853392693126473825890int);
    assert(mod_pow(3, 822754255495658152613295350805514046895447060188nat, 21888242871839275222246405745257275088696311157297823662689037894645226208583nat) == 16309255154744564590930980970402195394008451337341086225853392693126473825890nat);
    lemma_fundamental_div_mod_converse(16309255154744564590930980970402195394008451337341086225853392693126473825890int * 16309255154744564590930980970402195394008451337341086225853392693126473825890int, m, 12152268469424690060144115019053433751831929294650293963536215822739315218861int, 10048324657433783938759815729844860482392883990736912151121197601860152608137int);
    lemma_fundamental_div_mod_converse(10048324657433783938759815729844860482392883990736912151121197601860152608137int * 3, m, 1int, 8256731100462076594033041444277306358482340814912912790674554910935231615828int);
    assert(mod_pow(3, 1645508510991316305226590701611028093790894120377nat, 21888242871839275222246405745257275088696311157297823662689037894645226208583nat) == 8256731100462076594033041444277306358482340814912912790674554910935231615828nat);
    lemma_fundamental_div_mod_converse(8256731100462076594033041444277306358482340814912912790674554910935231615828int * 8256731100462076594033041444277306358482340814912912790674554910935231615828int, m, 3114622259288237092789390981389280583012144547166995611554339885015039544811int, 2724763476582908263210139375755339248116371491737262349800196738036118812771int);
    lemma_fundamental_div_mod_converse(2724763476582908263210139375755339248116371491737262349800196738036118812771int * 3, m, 0int, 8174290429748724789630418127266017744349114475211787049400590214108356438313int);
    assert(mod_pow(3, 3291017021982632610453181403222056187581788240755nat, 21888242871839275222246405745257275088696311157297823662689037894645226208583nat) == 8174290429748724789630418127266017744349114475211787049400590214108356438313nat);
    lemma_fundamental_div_mod_converse(8174290429748724789630418127266017744349114475211787049400590214108356438313int * 8174290429748724789630418127266017744349114475211787049400590214108356438313int, m, 3052735864688747871575382841243046600083734660733979413833397518489126228909int, 17506960803576104822142528046557956421767281073102404008067218850424335760022int);
    lemma_fundamental_div_mod_converse(17506960803576104822142528046557956421767281073102404008067218850424335760022int * 3, m, 2int, 8744396667049764021934772649159319087909220904711564698823580761982554862900int);
    assert(mod_pow(3, 6582034043965265220906362806444112375163576481511nat, 21888242871839275222246405745257275088696311157297823662689037894645226208583nat) == 8744396667049764021934772649159319087909220904711564698823580761982554862900nat);
    lemma_fundamental_div_mod_converse(8744396667049764021934772649159319087909220904711564698823580761982554862900int * 8744396667049764021934772649159319087909220904711564698823580761982554862900int, m, 3493403902653502050831313577322523372059179235333837312094763758193704437255int, 7374525692167531380535545402041523253922238854812707167238936888690530450335int);
    lemma_fundamental_div_mod_converse(7374525692167531380535545402041523253922238854812707167238936888690530450335int * 3, m, 1int, 235334204663318919360230460867294673070405407140297839027772771426365142422int);
    assert(mod_pow(3, 13164068087930530441812725612888224750327152963023nat, 21888242871839275222246405745257275088696311157297823662689037894645226208583nat) == 235334204663318919360230460867294673070405407140297839027772771426365142422nat);
    lemma_fundamental_div_mod_converse(235334204663318919360230460867294673070405407140297839027772771426365142422int * 235334204663318919360230460867294673070405407140297839027772771426365142422int, m, 2530225391265639558516943218547760972376874386027322632107601311109909447int, 9836149499481353333593186880225437002272064137014734765170826070444079842483int);
    lemma_fundamental_div_mod_converse(9836149499481353333593186880225437002272064137014734765170826070444079842483int * 3, m, 1int, 7620205626604784778533154895419035918119881253746380632823440316687013318866int);
    assert(mod_pow(3, 26328136175861060883625451225776449500654305926047nat, 21888242871839275222246405745257275088696311157297823662689037894645226208583nat) == 7620205626604784778533154895419035918119881253746380632823440316687013318866nat);
    lemma_fundamental_div_mod_converse(7620205626604784778533154895419035918119881253746380632823440316687013318866int * 7620205626604784778533154895419035918119881253746380632823440316687013318866int, m, 2652909789595174999869848188948232852435363086135461620992888279135639164002int, 5124058390363741994661248945786593774265982656506202277396369641897994496790int);
    lemma_fundamental_div_mod_converse(5124058390363741994661248945786593774265982656506202277396369641897994496790int * 3, m, 0int, 15372175171091225983983746837359781322797947969518606832189108925693983490370int);
    assert(mod_pow(3, 52656272351722121767250902451552899001308611852095nat, 21888242871839275222246405745257275088696311157297823662689037894645226208583nat) == 15372175171091225983983746837359781322797947969518606832189108925693983490370nat);
    lemma_fundamental_div_mod_converse(15372175171091225983983746837359781322797947969518606832189108925693983490370int * 15372175171091225983983746837359781322797947969518606832189108925693983490370int, m, 10795922307438143409614409812553724507500742787853798691711421727198120185166int, 14916445127079061699898085702391917863985495293531225190567090242707784257122int);
    assert(mod_pow(3, 105312544703444243534501804903105798002617223704190nat, 21888242871839275222246405745257275088696311157297823662689037894645226208583nat) == 14916445127079061699898085702391917863985495293531225190567090242707784257122nat);
    lemma_fundamental_div_mod_converse(14916445127079061699898085702391917863985495293531225190567090242707784257122int * 14916445127079061699898085702391917863985495293531225190567090242707784257122int, m, 10165289947299635350690068139816615151937898641259519724024910348806446389148int, 13542253421720488786002733886538622384272499176427207585863124386326772065600int);
    lemma_fundamental_div_mod_converse(13542253421720488786002733886538622384272499176427207585863124386326772065600int * 3, m, 1int, 18738517393322191135761795914358592064121186371983799094900335264335089988217int);
    assert(mod_pow(3, 210625089406888487069003609806211596005234447408381nat, 21888242871839275222246405745257275088696311157297823662689037894645226208583nat) == 18738517393322191135761795914358592064121186371983799094900335264335089988217nat);
    lemma_fundamental_div_mod_converse(18738517393322191135761795914358592064121186371983799094900335264335089988217int * 18738517393322191135761795914358592064121186371983799094900335264335089988217int, m, 16042038465846599087340723016304720707932618415713590100232510111582889732628int, 11610849733463343568946762342009720818439919123410275324446048428746170092965int);
    assert(mod_pow(3, 421250178813776974138007219612423192010468894816762nat, 21888242871839275222246405745257275088696311157297823662689037894645226208583nat) == 11610849733463343568946762342009720818439919123410275324446048428746170092965nat);
    lemma_fundamental_div_mod_converse(11610849733463343568946762342009720818439919123410275324446048428746170092965int * 11610849733463343568946762342009720818439919123410275324446048428746170092965int, m, 6159097937756824614788970935331813637627108196528955694750649477161677658793int, 19812474319984262929781643247297536073116882995228700638654199846813420470906int);
    lemma_fundamental_div_mod_converse(19812474319984262929781643247297536073116882995228700638654199846813420470906int * 3, m, 2int, 15660937216274238344852118251378058041958026671090454590584523751149808995552int);
    assert(mod_pow(3, 842500357627553948276014439224846384020937789633525nat, 21888242871839275222246405745257275088696311157297823662689037894645226208583nat) == 15660937216274238344852118251378058041958026671090454590584523751149808995552nat);
    lemma_fundamental_div_mod_converse(15660937216274238344852118251378058041958026671090454590584523751149808995552int * 15660937216274238344852118251378058041958026671090454590584523751149808995552int, m, 11205328629080302522857426687462976246362492481388949490155373512365904314588int, 17551316655846595097707416654409115495630720725753417856332141478522618075900int);
    assert(mod_pow(3, 1685000715255107896552028878449692768041875579267050nat, 21888242871839275222246405745257275088696311157297823662689037894645226208583nat) == 17551316655846595097707416654409115495630720725753417856332141478522618075900nat);
    lemma_fundamental_div_mod_converse(17551316655846595097707416654409115495630720725753417856332141478522618075900int * 17551316655846595097707416654409115495630720725753417856332141478522618075900int, m, 14073706973990310341442541441062152644811407917124267778199624286025369257712int, 6218149830001617470713751700094968495252534618076900353556918423339367467904int);
    assert(mod_pow(3, 3370001430510215793104057756899385536083751158534100nat, 21888242871839275222246405745257275088696311157297823662689037894645226208583nat) == 6218149830001617470713751700094968495252534618076900353556918423339367467904nat);
    lemma_fundamental_div_mod_converse(6218149830001617470713751700094968495252534618076900353556918423339367467904int * 6218149830001617470713751700094968495252534618076900353556918423339367467904int, m, 1766491149369272365403674620475369558434679441315235362433836910931779460997int, 21109182773020592804444035769844283457016031710990393702667121352966835015965int);
    assert(mod_pow(3, 6740002861020431586208115513798771072167502317068200nat, 21888242871839275222246405745257275088696311157297823662689037894645226208583nat) == 21109182773020592804444035769844283457016031710990393702667121352966835015965nat);
    lemma_fundamental_div_mod_converse(21109182773020592804444035769844283457016031710990393702667121352966835015965int * 21109182773020592804444035769844283457016031710990393702667121352966835015965int, m, 20357851470941105848847952723844245201169923342730492957060334037191938677760int, 8585711590431912298447870656449272897494445654115566400039375113522821667145int);
    assert(mod_pow(3, 13480005722040863172416231027597542144335004634136400nat, 21888242871839275222246405745257275088696311157297823662689037894645226208583nat) == 8585711590431912298447870656449272897494445654115566400039375113522821667145nat);
    lemma_fundamental_div_mod_converse(8585711590431912298447870656449272897494445654115566400039375113522821667145int * 8585711590431912298447870656449272897494445654115566400039375113522821667145int, m, 3367764326524152437519995637901833259639522800937805145129739913811232444603int, 13048866679991318345460665543424108912837754435024084133678526534564901823476int);
    assert(mod_pow(3, 26960011444081726344832462055195084288670009268272800nat, 21888242871839275222246405745257275088696311157297823662689037894645226208583nat) == 13048866679991318345460665543424108912837754435024084133678526534564901823476nat);
    lemma_fundamental_div_mod_converse(13048866679991318345460665543424108912837754435024084133678526534564901823476int * 13048866679991318345460665543424108912837754435024084133678526534564901823476int, m, 7779195553940761315361640350366588785927749922943243858864186284201764946263int, 10256853184436452653044180678528944083964347435245183960997897538281640347247int);
    assert(mod_pow(3, 53920022888163452689664924110390168577340018536545600nat, 21888242871839275222246405745257275088696311157297823662689037894645226208583nat) == 10256853184436452653044180678528944083964347435245183960997897538281640347247nat);
    lemma_fundamental_div_mod_converse(10256853184436452653044180678528944083964347435245183960997897538281640347247int * 10256853184436452653044180678528944083964347435245183960997897538281640347247int, m, 4806371980751141881457862350928788240074082211609896123412163037187182793005int, 20171231142294200534568496634653683579285661925210361251270919085818097117094int);
    lemma_fundamental_div_mod_converse(20171231142294200534568496634653683579285661925210361251270919085818097117094int * 3, m, 2int, 16737207683204051159212678413446500560464363461035436428434681468163838934116int);
    assert(mod_pow(3, 107840045776326905379329848220780337154680037073091201nat, 21888242871839275222246405745257275088696311157297823662689037894645226208583nat) == 16737207683204051159212678413446500560464363461035436428434681468163838934116nat);
    lemma_fundamental_div_mod_converse(16737207683204051159212678413446500560464363461035436428434681468163838934116int * 16737207683204051159212678413446500560464363461035436428434681468163838934116int, m, 12798383254012430123611938962851387552528276693858911012290840333781185325415int, 15954902399610547202671525089755954518514624362659891074734821041069467664511int);
    assert(mod_pow(3, 215680091552653810758659696441560674309360074146182402nat, 21888242871839275222246405745257275088696311157297823662689037894645226208583nat) == 15954902399610547202671525089755954518514624362659891074734821041069467664511nat);
    lemma_fundamental_div_mod_converse(15954902399610547202671525089755954518514624362659891074734821041069467664511int * 15954902399610547202671525089755954518514624362659891074734821041069467664511int, m, 11629938139466000004339672237919433496273871065331836544977802411820948456466int, 10110631794071518857297265692082791006886261797798905644022232089989637821443int);
    assert(mod_pow(3, 431360183105307621517319392883121348618720148292364804nat, 21888242871839275222246405745257275088696311157297823662689037894645226208583nat) == 10110631794071518857297265692082791006886261797798905644022232089989637821443nat);
    lemma_fundamental_div_mod_converse(10110631794071518857297265692082791006886261797798905644022232089989637821443int * 10110631794071518857297265692082791006886261797798905644022232089989637821443int, m, 4670309803936302676740683069311254004360547194703991553667367642594813691562int, 21323610698719034187754355325631075916529908911401548249884481750639911525603int);
    assert(mod_pow(3, 862720366210615243034638785766242697237440296584729608nat, 21888242871839275222246405745257275088696311157297823662689037894645226208583nat) == 21323610698719034187754355325631075916529908911401548249884481750639911525603nat);
    lemma_fundamental_div_mod_converse(21323610698719034187754355325631075916529908911401548249884481750639911525603int * 21323610698719034187754355325631075916529908911401548249884481750639911525603int, m, 20773543856072746186055380559362496557365619411170604418543565222143270194445int, 16032799043665204577663725717865497841922953617974404986077567478862386592174int);
    lemma_fundamental_div_mod_converse(16032799043665204577663725717865497841922953617974404986077567478862386592174int * 3, m, 2int, 4321911387317063288498365663081943348376238539327567632854626647296707359356int);
    assert(mod_pow(3, 1725440732421230486069277571532485394474880593169459217nat, 21888242871839275222246405745257275088696311157297823662689037894645226208583nat) == 4321911387317063288498365663081943348376238539327567632854626647296707359356nat);
    lemma_fundamental_div_mod_converse(4321911387317063288498365663081943348376238539327567632854626647296707359356int * 4321911387317063288498365663081943348376238539327567632854626647296707359356int, m, 853376771684702523205405798864653738255034384588494656085881096328663209497int, 18677390676870075905895491029959305744479232255614056063131532909540972221985int);
    lemma_fundamental_div_mod_converse(18677390676870075905895491029959305744479232255614056063131532909540972221985int * 3, m, 2int, 12255686286931677273193661599363367056045074452246520864016522939332464248789int);
    assert(mod_pow(3, 3450881464842460972138555143064970788949761186338918435nat, 21888242871839275222246405745257275088696311157297823662689037894645226208583nat) == 12255686286931677273193661599363367056045074452246520864016522939332464248789nat);
    lemma_fundamental_div_mod_converse(12255686286931677273193661599363367056045074452246520864016522939332464248789int * 12255686286931677273193661599363367056045074452246520864016522939332464248789int, m, 6862215813446137032999942522760787534386691422832988138935319889032972020632int, 10921799770203463598373216424737097684705995087734535199160770308128276482065int);
    assert(mod_pow(3, 6901762929684921944277110286129941577899522372677836870nat, 21888242871839275222246405745257275088696311157297823662689037894645226208583nat) == 10921799770203463598373216424737097684705995087734535199160770308128276482065nat);
    lemma_fundamental_div_mod_converse(10921799770203463598373216424737097684705995087734535199160770308128276482065int * 10921799770203463598373216424737097684705995087734535199160770308128276482065int, m, 5449761815914683259758478624382772638070180867644776625920438208025673599965int, 6155574181835997699975584817139317426446763181903340292329815350878675164630int);
    assert(mod_pow(3, 13803525859369843888554220572259883155799044745355673740nat, 21888242871839275222246405745257275088696311157297823662689037894645226208583nat) == 6155574181835997699975584817139317426446763181903340292329815350878675164630nat);
    lemma_fundamental_div_mod_converse(6155574181835997699975584817139317426446763181903340292329815350878675164630int * 6155574181835997699975584817139317426446763181903340292329815350878675164630int, m, 1731116276895638868679433835637240505259417220969429530976180715304036657013int, 21562072293124526576930877994535317125782402443734491339069838995809635294321int);
    assert(mod_pow(3, 27607051718739687777108441144519766311598089490711347480nat, 21888242871839275222246405745257275088696311157297823662689037894645226208583nat) == 21562072293124526576930877994535317125782402443734491339069838995809635294321nat);
    lemma_fundamental_div_mod_converse(21562072293124526576930877994535317125782402443734491339069838995809635294321int * 21562072293124526576930877994535317125782402443734491339069838995809635294321int, m, 21240762188913923192487156177872043486635678599650581670818573226938092980098int, 10088832057140447825379426556555956344492406154330520303597795383292079069907int);
    assert(mod_pow(3, 55214103437479375554216882289039532623196178981422694960nat, 21888242871839275222246405745257275088696311157297823662689037894645226208583nat) == 10088832057140447825379426556555956344492406154330520303597795383292079069907nat);
    lemma_fundamental_div_mod_converse(10088832057140447825379426556555956344492406154330520303597795383292079069907int * 10088832057140447825379426556555956344492406154330520303597795383292079069907int, m, 4650192017383795474067922609192510409175940136394519225160682584625777958898int, 10318455619293913018832158779895809742484571844122581224883622721173244167115int);
    assert(mod_pow(3, 110428206874958751108433764578079065246392357962845389920nat, 21888242871839275222246405745257275088696311157297823662689037894645226208583nat) == 10318455619293913018832158779895809742484571844122581224883622721173244167115nat);
    lemma_fundamental_div_mod_converse(10318455619293913018832158779895809742484571844122581224883622721173244167115int * 10318455619293913018832158779895809742484571844122581224883622721173244167115int, m, 4864279284122882253135587869585421661261987597785107654837017354176304171617int, 17108139689886703867378136701681231487634441245319842433340505079566577034514int);
    lemma_fundamental_div_mod_converse(17108139689886703867378136701681231487634441245319842433340505079566577034514int * 3, m, 2int, 7547933325981561157641598614529144285510701421363879974643439449409278686376int);
    assert(mod_pow(3, 220856413749917502216867529156158130492784715925690779841nat, 21888242871839275222246405745257275088696311157297823662689037894645226208583nat) == 7547933325981561157641598614529144285510701421363879974643439449409278686376nat);
    lemma_fundamental_div_mod_converse(7547933325981561157641598614529144285510701421363879974643439449409278686376int * 7547933325981561157641598614529144285510701421363879974643439449409278686376int, m, 2602826450119509194436688005034083577655196574851284211534011275504804941752int, 11145250675697236471144400668730112995240542227601201096815634516059050555960int);
    lemma_fundamental_div_mod_converse(11145250675697236471144400668730112995240542227601201096815634516059050555960int * 3, m, 1int, 11547509155252434191186796260933063897025315525505779627757865653531925459297int);
    assert(mod_pow(3, 441712827499835004433735058312316260985569431851381559683nat, 21888242871839275222246405745257275088696311157297823662689037894645226208583nat) == 11547509155252434191186796260933063897025315525505779627757865653531925459297nat);
    lemma_fundamental_div_mod_converse(11547509155252434191186796260933063897025315525505779627757865653531925459297int * 11547509155252434191186796260933063897025315525505779627757865653531925459297int, m, 6092081875708544303387734206537802732339142680391991933872065726992581164281int, 12715878948931083229502367413886421900547225464124045151987374318394908510386int);
    lemma_fundamental_div_mod_converse(12715878948931083229502367413886421900547225464124045151987374318394908510386int * 3, m, 1int, 16259393974953974466260696496401990612945365235074311793273085060539499322575int);
    assert(mod_pow(3, 883425654999670008867470116624632521971138863702763119367nat, 21888242871839275222246405745257275088696311157297823662689037894645226208583nat) == 16259393974953974466260696496401990612945365235074311793273085060539499322575nat);
    lemma_fundamental_div_mod_converse(16259393974953974466260696496401990612945365235074311793273085060539499322575int * 16259393974953974466260696496401990612945365235074311793273085060539499322575int, m, 12078077440053309198555360670422846438909835253859703388326374020094603826692int, 19032289031439304092219184917940896035007120039820125609936229336961529733189int);
    lemma_fundamental_div_mod_converse(19032289031439304092219184917940896035007120039820125609936229336961529733189int * 3, m, 2int, 13320381350639361832164743263308137927628737804864729504430612221594136782401int);
    assert(mod_pow(3, 1766851309999340017734940233249265043942277727405526238735nat, 21888242871839275222246405745257275088696311157297823662689037894645226208583nat) == 13320381350639361832164743263308137927628737804864729504430612221594136782401nat);
    lemma_fundamental_div_mod_converse(13320381350639361832164743263308137927628737804864729504430612221594136782401int * 13320381350639361832164743263308137927628737804864729504430612221594136782401int, m, 8106295254734223503446563453077546289662996238738149099595343617477407292938int, 17579051375646624483681517094916329603837412939648243967699206588553852437947int);
    lemma_fundamental_div_mod_converse(17579051375646624483681517094916329603837412939648243967699206588553852437947int * 3, m, 2int, 8960668383261323006551739794234438634119616504349084577719543976371104896675int);
    assert(mod_pow(3, 3533702619998680035469880466498530087884555454811052477471nat, 21888242871839275222246405745257275088696311157297823662689037894645226208583nat) == 8960668383261323006551739794234438634119616504349084577719543976371104896675nat);
    lemma_fundamental_div_mod_converse(8960668383261323006551739794234438634119616504349084577719543976371104896675int * 8960668383261323006551739794234438634119616504349084577719543976371104896675int, m, 3668342787720173003454325347412318814410852742086808967614405409454945938106int, 2775057826728992469805337063739345672177593124138186936003146970791862091827int);
    lemma_fundamental_div_mod_converse(2775057826728992469805337063739345672177593124138186936003146970791862091827int * 3, m, 0int, 8325173480186977409416011191218037016532779372414560808009440912375586275481int);
    assert(mod_pow(3, 7067405239997360070939760932997060175769110909622104954943nat, 21888242871839275222246405745257275088696311157297823662689037894645226208583nat) == 8325173480186977409416011191218037016532779372414560808009440912375586275481nat);
    lemma_fundamental_div_mod_converse(8325173480186977409416011191218037016532779372414560808009440912375586275481int * 8325173480186977409416011191218037016532779372414560808009440912375586275481int, m, 3166472241788704860265492983499749975095174068010766736900829254219059496487int, 1658152286720741238230601053542821045265240812052810504994713841281604033440int);
    lemma_fundamental_div_mod_converse(1658152286720741238230601053542821045265240812052810504994713841281604033440int * 3, m, 0int, 4974456860162223714691803160628463135795722436158431514984141523844812100320int);
    assert(mod_pow(3, 14134810479994720141879521865994120351538221819244209909887nat, 21888242871839275222246405745257275088696311157297823662689037894645226208583nat) == 4974456860162223714691803160628463135795722436158431514984141523844812100320nat);
    lemma_fundamental_div_mod_converse(4974456860162223714691803160628463135795722436158431514984141523844812100320int * 4974456860162223714691803160628463135795722436158431514984141523844812100320int, m, 1130525698134107986354871714303498247696610667414478164790763666282384752435int, 13535014419613818851719599396024080044680614899551192811115099223805616952795int);
    lemma_fundamental_div_mod_converse(13535014419613818851719599396024080044680614899551192811115099223805616952795int * 3, m, 1int, 18716800387002181332912392442814965045345533541355754770656259776771624649802int);
    assert(mod_pow(3, 28269620959989440283759043731988240703076443638488419819775nat, 21888242871839275222246405745257275088696311157297823662689037894645226208583nat) == 18716800387002181332912392442814965045345533541355754770656259776771624649802nat);
    lemma_fundamental_div_mod_converse(18716800387002181332912392442814965045345533541355754770656259776771624649802int * 18716800387002181332912392442814965045345533541355754770656259776771624649802int, m, 16004876169278709796275272607074466439946992361594572310868938776482126780481int, 2583795223531974190268539634706443631207493281923611489740432837975179570781int);
    assert(mod_pow(3, 56539241919978880567518087463976481406152887276976839639550nat, 21888242871839275222246405745257275088696311157297823662689037894645226208583nat) == 2583795223531974190268539634706443631207493281923611489740432837975179570781nat);
    lemma_fundamental_div_mod_converse(2583795223531974190268539634706443631207493281923611489740432837975179570781int * 2583795223531974190268539634706443631207493281923611489740432837975179570781int, m, 305003823113447502508011898220126988875724587655972980157697052808430437778int, 10649462693923775542797546203940318624618648401341971968263603544021557901387int);
    assert(mod_pow(3, 113078483839957761135036174927952962812305774553953679279100nat, 21888242871839275222246405745257275088696311157297823662689037894645226208583nat) == 10649462693923775542797546203940318624618648401341971968263603544021557901387nat);
    lemma_fundamental_div_mod_converse(10649462693923775542797546203940318624618648401341971968263603544021557901387int * 10649462693923775542797546203940318624618648401341971968263603544021557901387int, m, 5181368661400652468777714208914120603133017061662128644908330289328008654690int, 6944178948912988790105296314104449317896324357397560048514900173172455319499int);
    assert(mod_pow(3, 226156967679915522270072349855905925624611549107907358558200nat, 21888242871839275222246405745257275088696311157297823662689037894645226208583nat) == 6944178948912988790105296314104449317896324357397560048514900173172455319499nat);
    lemma_fundamental_div_mod_converse(6944178948912988790105296314104449317896324357397560048514900173172455319499int * 6944178948912988790105296314104449317896324357397560048514900173172455319499int, m, 2203083251445766936517991957602463003414949065671657611558610077111865722140int, 11041031180771142075200565330969280644464147647557855005070424059710608483381int);
    assert(mod_pow(3, 452313935359831044540144699711811851249223098215814717116400nat, 21888242871839275222246405745257275088696311157297823662689037894645226208583nat) == 11041031180771142075200565330969280644464147647557855005070424059710608483381nat);
    lemma_fundamental_div_mod_converse(11041031180771142075200565330969280644464147647557855005070424059710608483381int * 11041031180771142075200565330969280644464147647557855005070424059710608483381int, m, 5569399528712235146979714115821904599134033967269610259366795263965798550682int, 9654985055719576397296738671034906052526392687333363467982120462541724287555int);
    assert(mod_pow(3, 904627870719662089080289399423623702498446196431629434232800nat, 21888242871839275222246405745257275088696311157297823662689037894645226208583nat) == 9654985055719576397296738671034906052526392687333363467982120462541724287555nat);
    lemma_fundamental_div_mod_converse(9654985055719576397296738671034906052526392687333363467982120462541724287555int * 9654985055719576397296738671034906052526392687333363467982120462541724287555int, m, 4258849692594586741001305118157974573989122370098192660990268416640385902692int, 12787037302179170123364819526845550162324819183110073233188711347011194672589int);
    assert(mod_pow(3, 1809255741439324178160578798847247404996892392863258868465600nat, 21888242871839275222246405745257275088696311157297823662689037894645226208583nat) == 12787037302179170123364819526845550162324819183110073233188711347011194672589nat);
    lemma_fundamental_div_mod_converse(12787037302179170123364819526845550162324819183110073233188711347011194672589int * 12787037302179170123364819526845550162324819183110073233188711347011194672589int, m, 7470143854154972596400488076886918784705565346908056354569761552339610681601int, 797196708752821943385089771754749360010548804545420674404553866673281581538int);
    lemma_fundamental_div_mod_converse(797196708752821943385089771754749360010548804545420674404553866673281581538int * 3, m, 0int, 2391590126258465830155269315264248080031646413636262023213661600019844744614int);
    assert(mod_pow(3, 3618511482878648356321157597694494809993784785726517736931201nat, 21888242871839275222246405745257275088696311157297823662689037894645226208583nat) == 2391590126258465830155269315264248080031646413636262023213661600019844744614nat);
    lemma_fundamental_div_mod_converse(2391590126258465830155269315264248080031646413636262023213661600019844744614int * 2391590126258465830155269315264248080031646413636262023213661600019844744614int, m, 261313955876091585345799347515114812655024245017444135578726187091269060666int, 318860866087186432664889597732787831778131305748495565776728289339885112718int);
    assert(mod_pow(3, 7237022965757296712642315195388989619987569571453035473862402nat, 21888242871839275222246405745257275088696311157297823662689037894645226208583nat) == 318860866087186432664889597732787831778131305748495565776728289339885112718nat);
    lemma_fundamental_div_mod_converse(318860866087186432664889597732787831778131305748495565776728289339885112718int * 318860866087186432664889597732787831778131305748495565776728289339885112718int, m, 4645062306608401172552444120546633893187041498966258882290984596116871648int, 16928451955630802934828325664015333911249529714810072505449674901529678392740int);
    lemma_fundamental_div_mod_converse(16928451955630802934828325664015333911249529714810072505449674901529678392740int * 3, m, 2int, 7008870123213858359992165501531451556355966829834570190970948915298582761054int);
    assert(mod_pow(3, 14474045931514593425284630390777979239975139142906070947724805nat, 21888242871839275222246405745257275088696311157297823662689037894645226208583nat) == 7008870123213858359992165501531451556355966829834570190970948915298582761054nat);
    lemma_fundamental_div_mod_converse(7008870123213858359992165501531451556355966829834570190970948915298582761054int * 7008870123213858359992165501531451556355966829834570190970948915298582761054int, m, 2244321789177585117469478085439013017538668250801865149753262191375562697000int, 11145675867152246173929739950588596252088466072101221892306179595114030839916int);
    lemma_fundamental_div_mod_converse(11145675867152246173929739950588596252088466072101221892306179595114030839916int * 3, m, 1int, 11548784729617463299542814106508513667569087059005842014229500890696866311165int);
    assert(mod_pow(3, 28948091863029186850569260781555958479950278285812141895449611nat, 21888242871839275222246405745257275088696311157297823662689037894645226208583nat) == 11548784729617463299542814106508513667569087059005842014229500890696866311165nat);
    lemma_fundamental_div_mod_converse(11548784729617463299542814106508513667569087059005842014229500890696866311165int * 11548784729617463299542814106508513667569087059005842014229500890696866311165int, m, 6093427851289097744962799543544649285083795697138268491501662658058046104589int, 10220063312521673164797278932265774567655590165794674020172169741856169838int);
    lemma_fundamental_div_mod_converse(10220063312521673164797278932265774567655590165794674020172169741856169838int * 3, m, 0int, 30660189937565019494391836796797323702966770497384022060516509225568509514int);
    assert(mod_pow(3, 57896183726058373701138521563111916959900556571624283790899223nat, 21888242871839275222246405745257275088696311157297823662689037894645226208583nat) == 30660189937565019494391836796797323702966770497384022060516509225568509514nat);
    lemma_fundamental_div_mod_converse(30660189937565019494391836796797323702966770497384022060516509225568509514int * 30660189937565019494391836796797323702966770497384022060516509225568509514int, m, 42947588461611895422511076241557619913739774514210715342095822590395864int, 2175364501857969399890951069117402460852219070180538422938331595249704015484int);
    assert(mod_pow(3, 115792367452116747402277043126223833919801113143248567581798446nat, 21888242871839275222246405745257275088696311157297823662689037894645226208583nat) == 2175364501857969399890951069117402460852219070180538422938331595249704015484nat);
    lemma_fundamental_div_mod_converse(2175364501857969399890951069117402460852219070180538422938331595249704015484int * 2175364501857969399890951069117402460852219070180538422938331595249704015484int, m, 216198748508592473940219566823426409632521110696936198399146084946028790336int, 1522884433525697279041720289026204139028936984759197529405728353974601100368int);
    lemma_fundamental_div_mod_converse(1522884433525697279041720289026204139028936984759197529405728353974601100368int * 3, m, 0int, 4568653300577091837125160867078612417086810954277592588217185061923803301104int);
    assert(mod_pow(3, 231584734904233494804554086252447667839602226286497135163596893nat, 21888242871839275222246405745257275088696311157297823662689037894645226208583nat) == 4568653300577091837125160867078612417086810954277592588217185061923803301104nat);
    lemma_fundamental_div_mod_converse(4568653300577091837125160867078612417086810954277592588217185061923803301104int * 4568653300577091837125160867078612417086810954277592588217185061923803301104int, m, 953598381701437378881988269559715458167691334290167426778556534586093197573int, 17560039553086549339830646376315196720771872224418019556029699488333760249757int);
    assert(mod_pow(3, 463169469808466989609108172504895335679204452572994270327193786nat, 21888242871839275222246405745257275088696311157297823662689037894645226208583nat) == 17560039553086549339830646376315196720771872224418019556029699488333760249757nat);
    lemma_fundamental_div_mod_converse(17560039553086549339830646376315196720771872224418019556029699488333760249757int * 17560039553086549339830646376315196720771872224418019556029699488333760249757int, m, 14087699543149892998343921429579394530659156721449117549877710797802861622132int, 3007952032637477969655441800961428888743352546589836923508352025827457400093int);
    assert(mod_pow(3, 926338939616933979218216345009790671358408905145988540654387572nat, 21888242871839275222246405745257275088696311157297823662689037894645226208583nat) == 3007952032637477969655441800961428888743352546589836923508352025827457400093nat);
    lemma_fundamental_div_mod_converse(3007952032637477969655441800961428888743352546589836923508352025827457400093int * 3007952032637477969655441800961428888743352546589836923508352025827457400093int, m, 413362346334731080738593381665528001560652640722370727542314043016499061087int, 11365038976210296388218862076382586690086235906073438663491737141322755698928int);
    lemma_fundamental_div_mod_converse(11365038976210296388218862076382586690086235906073438663491737141322755698928int * 3, m, 1int, 12206874056791613942410180483890484981562396560922492327786173529323040888201int);
    assert(mod_pow(3, 1852677879233867958436432690019581342716817810291977081308775145nat, 21888242871839275222246405745257275088696311157297823662689037894645226208583nat) == 12206874056791613942410180483890484981562396560922492327786173529323040888201nat);
    lemma_fundamental_div_mod_converse(12206874056791613942410180483890484981562396560922492327786173529323040888201int * 12206874056791613942410180483890484981562396560922492327786173529323040888201int, m, 6807662684978741248345954395004132700711991885621356704229689851022766077934int, 20282183705336044518767905259931889768326527711287837875207985829031063308879int);
    lemma_fundamental_div_mod_converse(20282183705336044518767905259931889768326527711287837875207985829031063308879int * 3, m, 2int, 17070065372329583111810904289281119127586960819267866300245881697802737509471int);
    assert(mod_pow(3, 3705355758467735916872865380039162685433635620583954162617550291nat, 21888242871839275222246405745257275088696311157297823662689037894645226208583nat) == 17070065372329583111810904289281119127586960819267866300245881697802737509471nat);
    lemma_fundamental_div_mod_converse(17070065372329583111810904289281119127586960819267866300245881697802737509471int * 17070065372329583111810904289281119127586960819267866300245881697802737509471int, m, 13312495366656179927438208108331035350717110031802935273019949829499497861402int, 16888262948617475411703396977068125960277424995656810782177352682974537886475int);
    assert(mod_pow(3, 7410711516935471833745730760078325370867271241167908325235100582nat, 21888242871839275222246405745257275088696311157297823662689037894645226208583nat) == 16888262948617475411703396977068125960277424995656810782177352682974537886475nat);
    lemma_fundamental_div_mod_converse(16888262948617475411703396977068125960277424995656810782177352682974537886475int * 16888262948617475411703396977068125960277424995656810782177352682974537886475int, m, 13030439541978604715353438221316433519598504271572701746132383557051035437781int, 17371667649329533637643010821558215588757826778564378500870499107351763251302int);
    lemma_fundamental_div_mod_converse(17371667649329533637643010821558215588757826778564378500870499107351763251302int * 3, m, 2int, 8338517204310050468436220974160096588880858021097488177233421532764837336740int);
    assert(mod_pow(3, 14821423033870943667491461520156650741734542482335816650470201165nat, 21888242871839275222246405745257275088696311157297823662689037894645226208583nat) == 8338517204310050468436220974160096588880858021097488177233421532764837336740nat);
    lemma_fundamental_div_mod_converse(8338517204310050468436220974160096588880858021097488177233421532764837336740int * 8338517204310050468436220974160096588880858021097488177233421532764837336740int, m, 3176630923445706512242665894367692085939417657561136339316743738167101801291int, 11305516292008567133821715244168574626489861253805924496154836929154369146947int);
    assert(mod_pow(3, 29642846067741887334982923040313301483469084964671633300940402330nat, 21888242871839275222246405745257275088696311157297823662689037894645226208583nat) == 11305516292008567133821715244168574626489861253805924496154836929154369146947nat);
    lemma_fundamental_div_mod_converse(11305516292008567133821715244168574626489861253805924496154836929154369146947int * 11305516292008567133821715244168574626489861253805924496154836929154369146947int, m, 5839422532784187615751590891056898501460421180646323917881250898248067578765int, 21464332544853060789632053116356522543280053872624690769197763292238807880814int);
    assert(mod_pow(3, 59285692135483774669965846080626602966938169929343266601880804660nat, 21888242871839275222246405745257275088696311157297823662689037894645226208583nat) == 21464332544853060789632053116356522543280053872624690769197763292238807880814nat);
    lemma_fundamental_div_mod_converse(21464332544853060789632053116356522543280053872624690769197763292238807880814int * 21464332544853060789632053116356522543280053872624690769197763292238807880814int, m, 21048632103254985738599390778584025014791839440365449724772247550776897378326int, 14576771646723226632066452255732328233742955501329817724516206345516089930538int);
    lemma_fundamental_div_mod_converse(14576771646723226632066452255732328233742955501329817724516206345516089930538int * 3, m, 1int, 21842072068330404673952951021939709612532555346691629510859581141903043583031int);
    assert(mod_pow(3, 118571384270967549339931692161253205933876339858686533203761609321nat, 21888242871839275222246405745257275088696311157297823662689037894645226208583nat) == 21842072068330404673952951021939709612532555346691629510859581141903043583031nat);
    lemma_fundamental_div_mod_converse(21842072068330404673952951021939709612532555346691629510859581141903043583031int * 21842072068330404673952951021939709612532555346691629510859581141903043583031int, m, 21795998656974441811390086104698992307477586491900411807772845124803820886141int, 9075194505858956403761585742242028204054281279862594322684920504881831198758int);
    lemma_fundamental_div_mod_converse(9075194505858956403761585742242028204054281279862594322684920504881831198758int * 3, m, 1int, 5337340645737593989038351481468809523466532682289959305365723620000267387691int);
    assert(mod_pow(3, 237142768541935098679863384322506411867752679717373066407523218643nat, 21888242871839275222246405745257275088696311157297823662689037894645226208583nat) == 5337340645737593989038351481468809523466532682289959305365723620000267387691nat);
    lemma_fundamental_div_mod_converse(5337340645737593989038351481468809523466532682289959305365723620000267387691int * 5337340645737593989038351481468809523466532682289959305365723620000267387691int, m, 1301484332727929425365510076138807788100318643903540061990183218490997381483int, 517014037366952084958431751993494878961468918564357623572538561720318442892int);
    assert(mod_pow(3, 474285537083870197359726768645012823735505359434746132815046437286nat, 21888242871839275222246405745257275088696311157297823662689037894645226208583nat) == 517014037366952084958431751993494878961468918564357623572538561720318442892nat);
    lemma_fundamental_div_mod_converse(517014037366952084958431751993494878961468918564357623572538561720318442892int * 517014037366952084958431751993494878961468918564357623572538561720318442892int, m, 12212196127373039197650982798810277864368948120656934319565340105884349210int, 8510742510533493518439173490328770373033878339529129140875741845308794054234int);
    assert(mod_pow(3, 948571074167740394719453537290025647471010718869492265630092874572nat, 21888242871839275222246405745257275088696311157297823662689037894645226208583nat) == 8510742510533493518439173490328770373033878339529129140875741845308794054234nat);
    lemma_fundamental_div_mod_converse(8510742510533493518439173490328770373033878339529129140875741845308794054234int * 8510742510533493518439173490328770373033878339529129140875741845308794054234int, m, 3309207527745026735515722451666229829472874165961106038596228891131449597566int, 17302857168800872863618116302508857357187397595378386582764548475999208217778int);
    assert(mod_pow(3, 1897142148335480789438907074580051294942021437738984531260185749144nat, 21888242871839275222246405745257275088696311157297823662689037894645226208583nat) == 17302857168800872863618116302508857357187397595378386582764548475999208217778nat);
    lemma_fundamental_div_mod_converse(17302857168800872863618116302508857357187397595378386582764548475999208217778int * 17302857168800872863618116302508857357187397595378386582764548475999208217778int, m, 13678067625478884632401293099651089140057253561885485570003096664736855651878int, 10160712875938182512638944023221454718856794481905057464264328996890211588410int);
    lemma_fundamental_div_mod_converse(10160712875938182512638944023221454718856794481905057464264328996890211588410int * 3, m, 1int, 8593895755975272315670426324407089067874072288417348730103949096025408556647int);
    assert(mod_pow(3, 3794284296670961578877814149160102589884042875477969062520371498289nat, 21888242871839275222246405745257275088696311157297823662689037894645226208583nat) == 8593895755975272315670426324407089067874072288417348730103949096025408556647nat);
    lemma_fundamental_div_mod_converse(8593895755975272315670426324407089067874072288417348730103949096025408556647int * 8593895755975272315670426324407089067874072288417348730103949096025408556647int, m, 3374187900646395607739654851390809370128772867463660411227048407488455098185int, 10686872733855228652872918605434067572727801624028351230346946238939253160754int);
    lemma_fundamental_div_mod_converse(10686872733855228652872918605434067572727801624028351230346946238939253160754int * 3, m, 1int, 10172375329726410736372350071044927629487093714787230028351800822172533273679int);
    assert(mod_pow(3, 7588568593341923157755628298320205179768085750955938125040742996579nat, 21888242871839275222246405745257275088696311157297823662689037894645226208583nat) == 10172375329726410736372350071044927629487093714787230028351800822172533273679nat);
    lemma_fundamental_div_mod_converse(10172375329726410736372350071044927629487093714787230028351800822172533273679int * 10172375329726410736372350071044927629487093714787230028351800822172533273679int, m, 4727525204042625079752522057366288525159483321463543021981155349558420326742int, 13566607185115967704265146938582850756286180214658208480406906767972009368455int);
    lemma_fundamental_div_mod_converse(13566607185115967704265146938582850756286180214658208480406906767972009368455int * 3, m, 1int, 18811578683508627890549035070491277180162229486676801778531682409270801896782int);
    assert(mod_pow(3, 15177137186683846315511256596640410359536171501911876250081485993159nat, 21888242871839275222246405745257275088696311157297823662689037894645226208583nat) == 18811578683508627890549035070491277180162229486676801778531682409270801896782nat);
    lemma_fundamental_div_mod_converse(18811578683508627890549035070491277180162229486676801778531682409270801896782int * 18811578683508627890549035070491277180162229486676801778531682409270801896782int, m, 16167377831005396926265813507465438737371780292173573022998625779478699584113int, 1670674425528708371755373186587708636515035244449213136798126090239090913645int);
    assert(mod_pow(3, 30354274373367692631022513193280820719072343003823752500162971986318nat, 21888242871839275222246405745257275088696311157297823662689037894645226208583nat) == 1670674425528708371755373186587708636515035244449213136798126090239090913645nat);
    lemma_fundamental_div_mod_converse(1670674425528708371755373186587708636515035244449213136798126090239090913645int * 1670674425528708371755373186587708636515035244449213136798126090239090913645int, m, 127518369220340177920434451677300705471850328263231652649118139369374878665int, 8505789163936329983927337043042635109127130325572542795597190033777240604330int);
    assert(mod_pow(3, 60708548746735385262045026386561641438144686007647505000325943972636nat, 21888242871839275222246405745257275088696311157297823662689037894645226208583nat) == 8505789163936329983927337043042635109127130325572542795597190033777240604330nat);
    lemma_fundamental_div_mod_converse(8505789163936329983927337043042635109127130325572542795597190033777240604330int * 8505789163936329983927337043042635109127130325572542795597190033777240604330int, m, 3305356657679357650022369823146224856382108780831018140988630224650273365009int, 16540786853036026425025509565091157200507657591435262531898161313997287076653int);
    lemma_fundamental_div_mod_converse(16540786853036026425025509565091157200507657591435262531898161313997287076653int * 3, m, 2int, 5845874815429528830583717204758921424130350459710140270316408152701408812793int);
    assert(mod_pow(3, 121417097493470770524090052773123282876289372015295010000651887945273nat, 21888242871839275222246405745257275088696311157297823662689037894645226208583nat) == 5845874815429528830583717204758921424130350459710140270316408152701408812793nat);
    lemma_fundamental_div_mod_converse(5845874815429528830583717204758921424130350459710140270316408152701408812793int * 5845874815429528830583717204758921424130350459710140270316408152701408812793int, m, 1561306339561899959242528614477819822676208894420683770350892629541504409756int, 542413437630014642532653133110583881317428632330235765897133926846564325101int);
    assert(mod_pow(3, 242834194986941541048180105546246565752578744030590020001303775890546nat, 21888242871839275222246405745257275088696311157297823662689037894645226208583nat) == 542413437630014642532653133110583881317428632330235765897133926846564325101nat);
    lemma_fundamental_div_mod_converse(542413437630014642532653133110583881317428632330235765897133926846564325101int * 542413437630014642532653133110583881317428632330235765897133926846564325101int, m, 13441569478385774094809534262518239970551174306676505091112516157459238194int, 16274355493365136195157034977948302686547980679743846351699234055429494441099int);
    lemma_fundamental_div_mod_converse(16274355493365136195157034977948302686547980679743846351699234055429494441099int * 3, m, 2int, 5046580736416858140978293443330357882251319724635891729719626376998030906131int);
    assert(mod_pow(3, 485668389973883082096360211092493131505157488061180040002607551781093nat, 21888242871839275222246405745257275088696311157297823662689037894645226208583nat) == 5046580736416858140978293443330357882251319724635891729719626376998030906131nat);
    lemma_fundamental_div_mod_converse(5046580736416858140978293443330357882251319724635891729719626376998030906131int * 5046580736416858140978293443330357882251319724635891729719626376998030906131int, m, 1163545985773943348171882906877762535522224421787573019774145786897670701421int, 18842775379871085049748367968185176097018293858077875862045320258750872892718int);
    assert(mod_pow(3, 971336779947766164192720422184986263010314976122360080005215103562186nat, 21888242871839275222246405745257275088696311157297823662689037894645226208583nat) == 18842775379871085049748367968185176097018293858077875862045320258750872892718nat);
    lemma_fundamental_div_mod_converse(18842775379871085049748367968185176097018293858077875862045320258750872892718int * 18842775379871085049748367968185176097018293858077875862045320258750872892718int, m, 16221045521798020253391484183820688548255712024110585649700579500115349904116int, 12915939076689812905096176649096283761892273608719489007591062009517871199896int);
    lemma_fundamental_div_mod_converse(12915939076689812905096176649096283761892273608719489007591062009517871199896int * 3, m, 1int, 16859574358230163493042124202031576196980509668860643360084148133908387391105int);
    assert(mod_pow(3, 1942673559895532328385440844369972526020629952244720160010430207124373nat, 21888242871839275222246405745257275088696311157297823662689037894645226208583nat) == 16859574358230163493042124202031576196980509668860643360084148133908387391105nat);
    lemma_fundamental_div_mod_converse(16859574358230163493042124202031576196980509668860643360084148133908387391105int * 16859574358230163493042124202031576196980509668860643360084148133908387391105int, m, 12986206759720901291827220807794116392775278939860661383779284762497023624599int, 6060512459377003459231255543680001768395688079213517328221030620355169387808int);
    assert(mod_pow(3, 3885347119791064656770881688739945052041259904489440320020860414248746nat, 21888242871839275222246405745257275088696311157297823662689037894645226208583nat) == 6060512459377003459231255543680001768395688079213517328221030620355169387808nat);
    lemma_fundamental_div_mod_converse(6060512459377003459231255543680001768395688079213517328221030620355169387808int * 6060512459377003459231255543680001768395688079213517328221030620355169387808int, m, 1678061207805735509171386078632363614142938845057772159857703068844810458874int, 17943142101971505986142952210442046402100275831353866261135202605374031729322int);
    assert(mod_pow(3, 7770694239582129313541763377479890104082519808978880640041720828497492nat, 21888242871839275222246405745257275088696311157297823662689037894645226208583nat) == 17943142101971505986142952210442046402100275831353866261135202605374031729322nat);
    lemma_fundamental_div_mod_converse(17943142101971505986142952210442046402100275831353866261135202605374031729322int * 17943142101971505986142952210442046402100275831353866261135202605374031729322int, m, 14709099783690784282261651219057590737449617490484227364293874142430293930219int, 6766471422472871421348319065033364127343396121110186147916501416122533710007int);
    lemma_fundamental_div_mod_converse(6766471422472871421348319065033364127343396121110186147916501416122533710007int * 3, m, 0int, 20299414267418614264044957195100092382030188363330558443749504248367601130021int);
    assert(mod_pow(3, 15541388479164258627083526754959780208165039617957761280083441656994985nat, 21888242871839275222246405745257275088696311157297823662689037894645226208583nat) == 20299414267418614264044957195100092382030188363330558443749504248367601130021nat);
    lemma_fundamental_div_mod_converse(20299414267418614264044957195100092382030188363330558443749504248367601130021int * 20299414267418614264044957195100092382030188363330558443749504248367601130021int, m, 18825915904397690711386457177741173877717784969005077851143765258345132235444int, 6864938898339310290214793800365577795994504585732731490979161123408737844589int);
    lemma_fundamental_div_mod_converse(6864938898339310290214793800365577795994504585732731490979161123408737844589int * 3, m, 0int, 20594816695017930870644381401096733387983513757198194472937483370226213533767int);
    assert(mod_pow(3, 31082776958328517254167053509919560416330079235915522560166883313989971nat, 21888242871839275222246405745257275088696311157297823662689037894645226208583nat) == 20594816695017930870644381401096733387983513757198194472937483370226213533767nat);
    lemma_fundamental_div_mod_converse(20594816695017930870644381401096733387983513757198194472937483370226213533767int * 20594816695017930870644381401096733387983513757198194472937483370226213533767int, m, 19377822020016179631813878469561672293265255314316499606259290911016933173014int, 10056996291283886580616216162029300739165231375656525176372463787250458431127int);
    lemma_fundamental_div_mod_converse(10056996291283886580616216162029300739165231375656525176372463787250458431127int * 3, m, 1int, 8282746002012384519602242740830627128799382969671751866428353467106149084798int);
    assert(mod_pow(3, 62165553916657034508334107019839120832660158471831045120333766627979943nat, 21888242871839275222246405745257275088696311157297823662689037894645226208583nat) == 8282746002012384519602242740830627128799382969671751866428353467106149084798nat);
    lemma_fundamental_div_mod_converse(8282746002012384519602242740830627128799382969671751866428353467106149084798int * 8282746002012384519602242740830627128799382969671751866428353467106149084798int, m, 3134279975580668260639411206094624301745557907494376101394354794858784963621int, 21290487960952946289425222493763787692041684011189669290927200394185581741761int);
    lemma_fundamental_div_mod_converse(21290487960952946289425222493763787692041684011189669290927200394185581741761int * 3, m, 2int, 20094978139180288423782855990776812898732429718973360547403525393266292808117int);
    assert(mod_pow(3, 124331107833314069016668214039678241665320316943662090240667533255959887nat, 21888242871839275222246405745257275088696311157297823662689037894645226208583nat) == 20094978139180288423782855990776812898732429718973360547403525393266292808117nat);
    lemma_fundamental_div_mod_converse(20094978139180288423782855990776812898732429718973360547403525393266292808117int * 20094978139180288423782855990776812898732429718973360547403525393266292808117int, m, 18448632390389844698864057344172751407903991844651955050899957581289215141865int, 10284697898890697353713641643766574311438472091919761061545750133488955458394int);
    assert(mod_pow(3, 248662215666628138033336428079356483330640633887324180481335066511919774nat, 21888242871839275222246405745257275088696311157297823662689037894645226208583nat) == 10284697898890697353713641643766574311438472091919761061545750133488955458394nat);
    lemma_fundamental_div_mod_converse(10284697898890697353713641643766574311438472091919761061545750133488955458394int * 10284697898890697353713641643766574311438472091919761061545750133488955458394int, m, 4832503526700789975732753377836986436979890108210145123403628162705105220839int, 5403786550217649184182838023188715233856717231691897564433617291259772798099int);
    assert(mod_pow(3, 497324431333256276066672856158712966661281267774648360962670133023839548nat, 21888242871839275222246405745257275088696311157297823662689037894645226208583nat) == 5403786550217649184182838023188715233856717231691897564433617291259772798099nat);
    lemma_fundamental_div_mod_converse(5403786550217649184182838023188715233856717231691897564433617291259772798099int * 5403786550217649184182838023188715233856717231691897564433617291259772798099int, m, 1334091057527606890170061660738944639018560064482938595778617559433119879835int, 14136532093506779737939282257463255420366595793474668398616491935322212389996int);
    lemma_fundamental_div_mod_converse(14136532093506779737939282257463255420366595793474668398616491935322212389996int * 3, m, 1int, 20521353408681063991571441027132491172403476223126181533160437911321410961405int);
    assert(mod_pow(3, 994648862666512552133345712317425933322562535549296721925340266047679097nat, 21888242871839275222246405745257275088696311157297823662689037894645226208583nat) == 20521353408681063991571441027132491172403476223126181533160437911321410961405nat);
    lemma_fundamental_div_mod_converse(20521353408681063991571441027132491172403476223126181533160437911321410961405int * 20521353408681063991571441027132491172403476223126181533160437911321410961405int, m, 19239824237595303701638810953305872157787350495060084692035245027675007751125int, 6812761850782926297230824150434286700974771477980891240950366507765396668150int);
    assert(mod_pow(3, 1989297725333025104266691424634851866645125071098593443850680532095358194nat, 21888242871839275222246405745257275088696311157297823662689037894645226208583nat) == 6812761850782926297230824150434286700974771477980891240950366507765396668150nat);
}

} // verus!
