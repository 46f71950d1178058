//! Lucas–Pratt certificates for the BN254 base-field prime, continued (part 3).
use crate::primality::{is_prime, lemma_pratt_prime, mod_pow, pratt_witness, product};
use crate::prime_certificates_1::{lemma_pow_base_modulus_by_2, lemma_pow_base_modulus_full, lemma_prime_11003, lemma_prime_11465965001, lemma_prime_13, lemma_prime_229, lemma_prime_29, lemma_prime_3, lemma_prime_311, lemma_prime_405928799, lemma_prime_67, lemma_prime_983, lemma_prime_p134276_41_digits};
use crate::prime_certificates_2::{lemma_pow_base_modulus_by_11003, lemma_pow_base_modulus_by_13, lemma_pow_base_modulus_by_229, lemma_pow_base_modulus_by_29, lemma_pow_base_modulus_by_3, lemma_pow_base_modulus_by_311, lemma_pow_base_modulus_by_67, lemma_pow_base_modulus_by_983};
use vstd::arithmetic::div_mod::lemma_fundamental_div_mod_converse;
use vstd::prelude::*;

verus! {

#[verifier::rlimit(100)]
pub proof fn lemma_pow_base_modulus_by_405928799()
    ensures
        mod_pow(3, 53921384552563552462426805409431605981462554858784049127514694749818nat, 21888242871839275222246405745257275088696311157297823662689037894645226208583nat) == 4037977894466302416077673003712391021526016837688049215215365469034689108930nat,
{
    let m = 21888242871839275222246405745257275088696311157297823662689037894645226208583int;
    lemma_fundamental_div_mod_converse(1, m, 0, 1);
    assert(mod_pow(3, 0, 21888242871839275222246405745257275088696311157297823662689037894645226208583nat) == 1);
    lemma_fundamental_div_mod_converse(1int * 1int, m, 0int, 1int);
    lemma_fundamental_div_mod_converse(1int * 3, m, 0int, 3int);
    assert(mod_pow(3, 1, 21888242871839275222246405745257275088696311157297823662689037894645226208583nat) == 3);
    lemma_fundamental_div_mod_converse(3int * 3int, m, 0int, 9int);
    assert(mod_pow(3, 2, 21888242871839275222246405745257275088696311157297823662689037894645226208583nat) == 9);
    lemma_fundamental_div_mod_converse(9int * 9int, m, 0int, 81int);
    assert(mod_pow(3, 4, 21888242871839275222246405745257275088696311157297823662689037894645226208583nat) == 81);
    lemma_fundamental_div_mod_converse(81int * 81int, m, 0int, 6561int);
    assert(mod_pow(3, 8, 21888242871839275222246405745257275088696311157297823662689037894645226208583nat) == 6561);
    lemma_fundamental_div_mod_converse(6561int * 6561int, m, 0int, 43046721int);
    assert(mod_pow(3, 16, 21888242871839275222246405745257275088696311157297823662689037894645226208583nat) == 43046721);
    lemma_fundamental_div_mod_converse(43046721int * 43046721int, m, 0int, 1853020188851841int);
    assert(mod_pow(3, 32, 21888242871839275222246405745257275088696311157297823662689037894645226208583nat) == 1853020188851841);
    lemma_fundamental_div_mod_converse(1853020188851841int * 1853020188851841int, m, 0int, 3433683820292512484657849089281int);
    assert(mod_pow(3, 64, 21888242871839275222246405745257275088696311157297823662689037894645226208583nat) == 3433683820292512484657849089281nat);
    lemma_fundamental_div_mod_converse(3433683820292512484657849089281int * 3433683820292512484657849089281int, m, 0int, 11790184577738583171520872861412518665678211592275841109096961int);
    assert(mod_pow(3, 128, 21888242871839275222246405745257275088696311157297823662689037894645226208583nat) == 11790184577738583171520872861412518665678211592275841109096961nat);
    lemma_fundamental_div_mod_converse(11790184577738583171520872861412518665678211592275841109096961int * 11790184577738583171520872861412518665678211592275841109096961int, m, 6350827391265318745223778049082568054712548337int, 12461994023345524472166551035420486400965147166992802478852731993152267659050int);
    assert(mod_pow(3, 256, 21888242871839275222246405745257275088696311157297823662689037894645226208583nat) == 12461994023345524472166551035420486400965147166992802478852731993152267659050nat);
    lemma_fundamental_div_mod_converse(12461994023345524472166551035420486400965147166992802478852731993152267659050int * 12461994023345524472166551035420486400965147166992802478852731993152267659050int, m, 7095192425779656049530670860457832725257600110611632426660686577260003073261int, 4173858178735788426690611489739431529539421186796592085049173387444030903337int);
    assert(mod_pow(3, 512, 21888242871839275222246405745257275088696311157297823662689037894645226208583nat) == 4173858178735788426690611489739431529539421186796592085049173387444030903337nat);
    lemma_fundamental_div_mod_converse(4173858178735788426690611489739431529539421186796592085049173387444030903337int * 4173858178735788426690611489739431529539421186796592085049173387444030903337int, m, 795910946264812415524999569650942938204617810428957076888466199708171100123int, 8702517096976585376885637440207711180740958179135750740398427016856862779860int);
    assert(mod_pow(3, 1024, 21888242871839275222246405745257275088696311157297823662689037894645226208583nat) == 8702517096976585376885637440207711180740958179135750740398427016856862779860nat);
    lemma_fundamental_div_mod_converse(8702517096976585376885637440207711180740958179135750740398427016856862779860int * 8702517096976585376885637440207711180740958179135750740398427016856862779860int, m, 3460022088872492586544797337843667422382883969791210739554880677882971730910int, 2854780805569279497542552959271629580202128008345869345227362577378613219070int);
    assert(mod_pow(3, 2048, 21888242871839275222246405745257275088696311157297823662689037894645226208583nat) == 2854780805569279497542552959271629580202128008345869345227362577378613219070nat);
    lemma_fundamental_div_mod_converse(2854780805569279497542552959271629580202128008345869345227362577378613219070int * 2854780805569279497542552959271629580202128008345869345227362577378613219070int, m, 372335664199524510682308840831539076057032088099253069473881461755796376146int, 3409803748035178888624439891692248712948358071566427713455369906093290003782int);
    assert(mod_pow(3, 4096, 21888242871839275222246405745257275088696311157297823662689037894645226208583nat) == 3409803748035178888624439891692248712948358071566427713455369906093290003782nat);
    lemma_fundamental_div_mod_converse(3409803748035178888624439891692248712948358071566427713455369906093290003782int * 3409803748035178888624439891692248712948358071566427713455369906093290003782int, m, 531187526938189244420681097236669336171022084009021194698047590884624435375int, 15175208205575792937935611150447671183630859523520607885888558112757220479899int);
    assert(mod_pow(3, 8192, 21888242871839275222246405745257275088696311157297823662689037894645226208583nat) == 15175208205575792937935611150447671183630859523520607885888558112757220479899nat);
    lemma_fundamental_div_mod_converse(15175208205575792937935611150447671183630859523520607885888558112757220479899int * 15175208205575792937935611150447671183630859523520607885888558112757220479899int, m, 10521033845930813202475136290188464839577360229106025681494904489996338113366int, 19655988004978810886556032418408963620734757655040036425279252909588446829823int);
    assert(mod_pow(3, 16384, 21888242871839275222246405745257275088696311157297823662689037894645226208583nat) == 19655988004978810886556032418408963620734757655040036425279252909588446829823nat);
    lemma_fundamental_div_mod_converse(19655988004978810886556032418408963620734757655040036425279252909588446829823int * 19655988004978810886556032418408963620734757655040036425279252909588446829823int, m, 17651387857585716462808033092734504960375608292903650032879857379572610619858int, 12543565825228801154365196519865450944411758290762477579671119488399892370115int);
    assert(mod_pow(3, 32768, 21888242871839275222246405745257275088696311157297823662689037894645226208583nat) == 12543565825228801154365196519865450944411758290762477579671119488399892370115nat);
    lemma_fundamental_div_mod_converse(12543565825228801154365196519865450944411758290762477579671119488399892370115int * 12543565825228801154365196519865450944411758290762477579671119488399892370115int, m, 7188381659191014040154584049130122142301935255432516500022639156898316147277int, 1425460608470057118211421880609508012945552641732277192330397513765595634734int);
    lemma_fundamental_div_mod_converse(1425460608470057118211421880609508012945552641732277192330397513765595634734int * 3, m, 0int, 4276381825410171354634265641828524038836657925196831576991192541296786904202int);
    assert(mod_pow(3, 65537, 21888242871839275222246405745257275088696311157297823662689037894645226208583nat) == 4276381825410171354634265641828524038836657925196831576991192541296786904202nat);
    lemma_fundamental_div_mod_converse(4276381825410171354634265641828524038836657925196831576991192541296786904202int * 4276381825410171354634265641828524038836657925196831576991192541296786904202int, m, 835491529574832902455440750542063311800555301456612234067740330504990200521int, 5575702130260353585712498330511543941816772479421604013568673452073383985061int);
    lemma_fundamental_div_mod_converse(5575702130260353585712498330511543941816772479421604013568673452073383985061int * 3, m, 0int, 16727106390781060757137494991534631825450317438264812040706020356220151955183int);
    assert(mod_pow(3, 131075, 21888242871839275222246405745257275088696311157297823662689037894645226208583nat) == 16727106390781060757137494991534631825450317438264812040706020356220151955183nat);
    lemma_fundamental_div_mod_converse(16727106390781060757137494991534631825450317438264812040706020356220151955183int * 16727106390781060757137494991534631825450317438264812040706020356220151955183int, m, 12782939674362141279249744188465167499533723796439062679810638394504697346570int, 16444896025191499474046478942985598481437553544499582430205278975636180953179int);
    lemma_fundamental_div_mod_converse(16444896025191499474046478942985598481437553544499582430205278975636180953179int * 3, m, 2int, 5558202331895947977646625338442245266920038318903099965237761137618090442371int);
    assert(mod_pow(3, 262151, 21888242871839275222246405745257275088696311157297823662689037894645226208583nat) == 5558202331895947977646625338442245266920038318903099965237761137618090442371nat);
    lemma_fundamental_div_mod_converse(5558202331895947977646625338442245266920038318903099965237761137618090442371int * 5558202331895947977646625338442245266920038318903099965237761137618090442371int, m, 1411424998488129203111531160857907665924669510301127012353823277100409213266int, 19307351827557282620991396235676717097548585391770689579048922326955425439563int);
    assert(mod_pow(3, 524302, 21888242871839275222246405745257275088696311157297823662689037894645226208583nat) == 19307351827557282620991396235676717097548585391770689579048922326955425439563nat);
    lemma_fundamental_div_mod_converse(19307351827557282620991396235676717097548585391770689579048922326955425439563int * 19307351827557282620991396235676717097548585391770689579048922326955425439563int, m, 17030779344680912284038460502831625392631917301729567967898459694058875435841int, 13356099779836066165705989380997787521455264213178859727361450937791665607666int);
    assert(mod_pow(3, 1048604, 21888242871839275222246405745257275088696311157297823662689037894645226208583nat) == 13356099779836066165705989380997787521455264213178859727361450937791665607666nat);
    lemma_fundamental_div_mod_converse(13356099779836066165705989380997787521455264213178859727361450937791665607666int * 13356099779836066165705989380997787521455264213178859727361450937791665607666int, m, 8149827392423631285998220061349825786215591433171652544675123154766857639215int, 1918328486165747789573176371548998544973998188102762672505709379572487585211int);
    lemma_fundamental_div_mod_converse(1918328486165747789573176371548998544973998188102762672505709379572487585211int * 3, m, 0int, 5754985458497243368719529114646995634921994564308288017517128138717462755633int);
    assert(mod_pow(3, 2097209, 21888242871839275222246405745257275088696311157297823662689037894645226208583nat) == 5754985458497243368719529114646995634921994564308288017517128138717462755633nat);
    lemma_fundamental_div_mod_converse(5754985458497243368719529114646995634921994564308288017517128138717462755633int * 5754985458497243368719529114646995634921994564308288017517128138717462755633int, m, 1513134600225296910654426869228848999570197783629065265328816461953673027206int, 3437952767940290040390270109419640856249909587715996682765747929498283521591int);
    lemma_fundamental_div_mod_converse(3437952767940290040390270109419640856249909587715996682765747929498283521591int * 3, m, 0int, 10313858303820870121170810328258922568749728763147990048297243788494850564773int);
    assert(mod_pow(3, 4194419, 21888242871839275222246405745257275088696311157297823662689037894645226208583nat) == 10313858303820870121170810328258922568749728763147990048297243788494850564773nat);
    lemma_fundamental_div_mod_converse(10313858303820870121170810328258922568749728763147990048297243788494850564773int * 10313858303820870121170810328258922568749728763147990048297243788494850564773int, m, 4859945758741297182253159444885336842068595072047855497124043518947433109901int, 9833495659503397700850040885683836475534860311084270792207464828734080061246int);
    lemma_fundamental_div_mod_converse(9833495659503397700850040885683836475534860311084270792207464828734080061246int * 3, m, 1int, 7612244106670917880303716911794234337908269775954988713933356591557013975155int);
    assert(mod_pow(3, 8388839, 21888242871839275222246405745257275088696311157297823662689037894645226208583nat) == 7612244106670917880303716911794234337908269775954988713933356591557013975155nat);
    lemma_fundamental_div_mod_converse(7612244106670917880303716911794234337908269775954988713933356591557013975155int * 7612244106670917880303716911794234337908269775954988713933356591557013975155int, m, 2647369214552071533912513733000620147923690022282537218977258742538348949070int, 9458186020022333967360380476556764189160783067628898529408469258896293406215int);
    lemma_fundamental_div_mod_converse(9458186020022333967360380476556764189160783067628898529408469258896293406215int * 3, m, 1int, 6486315188227726679834735684413017478786038045588871925536369882043654010062int);
    assert(mod_pow(3, 16777679, 21888242871839275222246405745257275088696311157297823662689037894645226208583nat) == 6486315188227726679834735684413017478786038045588871925536369882043654010062nat);
    lemma_fundamental_div_mod_converse(6486315188227726679834735684413017478786038045588871925536369882043654010062int * 6486315188227726679834735684413017478786038045588871925536369882043654010062int, m, 1922140802593275658240306543221688200075177551025229677772157184886726018149int, 17826174508976671112991538737353808862022455436050198889491662742313479670977int);
    lemma_fundamental_div_mod_converse(17826174508976671112991538737353808862022455436050198889491662742313479670977int * 3, m, 2int, 9702037783251462894481804721546876408674743993554949343096912437649986595765int);
    assert(mod_pow(3, 33555359, 21888242871839275222246405745257275088696311157297823662689037894645226208583nat) == 9702037783251462894481804721546876408674743993554949343096912437649986595765nat);
    lemma_fundamental_div_mod_converse(9702037783251462894481804721546876408674743993554949343096912437649986595765int * 9702037783251462894481804721546876408674743993554949343096912437649986595765int, m, 4300461105936605889792453777566275137712647562044600591901722561002914913742int, 19943824533323384092799262056987552717849054774351519225679574131076370887639int);
    lemma_fundamental_div_mod_converse(19943824533323384092799262056987552717849054774351519225679574131076370887639int * 3, m, 2int, 16054987856291601833904974680448107976154542008458910351660646603938660245751int);
    assert(mod_pow(3, 67110719, 21888242871839275222246405745257275088696311157297823662689037894645226208583nat) == 16054987856291601833904974680448107976154542008458910351660646603938660245751nat);
    lemma_fundamental_div_mod_converse(16054987856291601833904974680448107976154542008458910351660646603938660245751int * 16054987856291601833904974680448107976154542008458910351660646603938660245751int, m, 11776305506793334371115717833606421252449741127110118786296247496076551013415int, 94026103240846824419251414270606420737381890244564805452198332380892413056int);
    lemma_fundamental_div_mod_converse(94026103240846824419251414270606420737381890244564805452198332380892413056int * 3, m, 0int, 282078309722540473257754242811819262212145670733694416356594997142677239168int);
    assert(mod_pow(3, 134221439, 21888242871839275222246405745257275088696311157297823662689037894645226208583nat) == 282078309722540473257754242811819262212145670733694416356594997142677239168nat);
    lemma_fundamental_div_mod_converse(282078309722540473257754242811819262212145670733694416356594997142677239168int * 282078309722540473257754242811819262212145670733694416356594997142677239168int, m, 3635201476967133784312747987544067127122476473357621381535883880420820139int, 1071382275019703569199025369052630108768988094792508544662260777780332279187int);
    lemma_fundamental_div_mod_converse(1071382275019703569199025369052630108768988094792508544662260777780332279187int * 3, m, 0int, 3214146825059110707597076107157890326306964284377525633986782333340996837561int);
    assert(mod_pow(3, 268442879, 21888242871839275222246405745257275088696311157297823662689037894645226208583nat) == 3214146825059110707597076107157890326306964284377525633986782333340996837561nat);
    lemma_fundamental_div_mod_converse(3214146825059110707597076107157890326306964284377525633986782333340996837561int * 3214146825059110707597076107157890326306964284377525633986782333340996837561int, m, 471976662244038168010000936777574314148482556142407577521779435666766582484int, 19038051636763027228611927278107298492979857711516932595212249525607562168549int);
    lemma_fundamental_div_mod_converse(19038051636763027228611927278107298492979857711516932595212249525607562168549int * 3, m, 2int, 13337669166610531241342970343807345301546950819955150460258672787532234088481int);
    assert(mod_pow(3, 536885759, 21888242871839275222246405745257275088696311157297823662689037894645226208583nat) == 13337669166610531241342970343807345301546950819955150460258672787532234088481nat);
    lemma_fundamental_div_mod_converse(13337669166610531241342970343807345301546950819955150460258672787532234088481int * 13337669166610531241342970343807345301546950819955150460258672787532234088481int, m, 8127350369765192066503607231617813361630429866515524416115211066909836559833int, 7207453789258296037330967933231231009371947687336519876271372923954519240722int);
    lemma_fundamental_div_mod_converse(7207453789258296037330967933231231009371947687336519876271372923954519240722int * 3, m, 0int, 21622361367774888111992903799693693028115843062009559628814118771863557722166int);
    assert(mod_pow(3, 1073771519, 21888242871839275222246405745257275088696311157297823662689037894645226208583nat) == 21622361367774888111992903799693693028115843062009559628814118771863557722166nat);
    lemma_fundamental_div_mod_converse(21622361367774888111992903799693693028115843062009559628814118771863557722166int * 21622361367774888111992903799693693028115843062009559628814118771863557722166int, m, 21359709587293954658331034161564969812201298976459289915501320708634755160431int, 4453330816308832936359488161504022408961548301935343323864420863142413552283int);
    lemma_fundamental_div_mod_converse(4453330816308832936359488161504022408961548301935343323864420863142413552283int * 3, m, 0int, 13359992448926498809078464484512067226884644905806029971593262589427240656849int);
    assert(mod_pow(3, 2147543039, 21888242871839275222246405745257275088696311157297823662689037894645226208583nat) == 13359992448926498809078464484512067226884644905806029971593262589427240656849nat);
    lemma_fundamental_div_mod_converse(13359992448926498809078464484512067226884644905806029971593262589427240656849int * 13359992448926498809078464484512067226884644905806029971593262589427240656849int, m, 8154578660355231722250452728615539555582489091307643053876861441765932936619int, 2181193120081051500146143417743979339108270523606102563684029774244357807924int);
    assert(mod_pow(3, 4295086078, 21888242871839275222246405745257275088696311157297823662689037894645226208583nat) == 2181193120081051500146143417743979339108270523606102563684029774244357807924nat);
    lemma_fundamental_div_mod_converse(2181193120081051500146143417743979339108270523606102563684029774244357807924int * 2181193120081051500146143417743979339108270523606102563684029774244357807924int, m, 217358855845386075574152126429627797197248112349765053013118772048250094903int, 12229559017743371969248527475034368482489037763045394730268696489389854037327int);
    assert(mod_pow(3, 8590172156, 21888242871839275222246405745257275088696311157297823662689037894645226208583nat) == 12229559017743371969248527475034368482489037763045394730268696489389854037327nat);
    lemma_fundamental_div_mod_converse(12229559017743371969248527475034368482489037763045394730268696489389854037327int * 12229559017743371969248527475034368482489037763045394730268696489389854037327int, m, 6832988588631303067389957164080158238232686641791292812353036633902530283123int, 5464763613674569542838099180677974089728869018003898516335983514367066660220int);
    lemma_fundamental_div_mod_converse(5464763613674569542838099180677974089728869018003898516335983514367066660220int * 3, m, 0int, 16394290841023708628514297542033922269186607054011695549007950543101199980660int);
    assert(mod_pow(3, 17180344313, 21888242871839275222246405745257275088696311157297823662689037894645226208583nat) == 16394290841023708628514297542033922269186607054011695549007950543101199980660nat);
    lemma_fundamental_div_mod_converse(16394290841023708628514297542033922269186607054011695549007950543101199980660int * 16394290841023708628514297542033922269186607054011695549007950543101199980660int, m, 12279321540509240873941133767398875456656605255952673439486871493616675838945int, 3923365097053070909653488358688844206684973441189148518138413109361289370665int);
    lemma_fundamental_div_mod_converse(3923365097053070909653488358688844206684973441189148518138413109361289370665int * 3, m, 0int, 11770095291159212728960465076066532620054920323567445554415239328083868111995int);
    assert(mod_pow(3, 34360688627, 21888242871839275222246405745257275088696311157297823662689037894645226208583nat) == 11770095291159212728960465076066532620054920323567445554415239328083868111995nat);
    lemma_fundamental_div_mod_converse(11770095291159212728960465076066532620054920323567445554415239328083868111995int * 11770095291159212728960465076066532620054920323567445554415239328083868111995int, m, 6329203489477139811592570026769938714972737698312112204282024960731146004304int, 86619337659230573839609415497545961967629565935574067429047195926143138793int);
    assert(mod_pow(3, 68721377254, 21888242871839275222246405745257275088696311157297823662689037894645226208583nat) == 86619337659230573839609415497545961967629565935574067429047195926143138793nat);
    lemma_fundamental_div_mod_converse(86619337659230573839609415497545961967629565935574067429047195926143138793int * 86619337659230573839609415497545961967629565935574067429047195926143138793int, m, 342782639084145373069605031033401520020479934050393174563715176582577592int, 9328470458447856432340118631652056270651746799090133351373440668850487624713int);
    assert(mod_pow(3, 137442754508, 21888242871839275222246405745257275088696311157297823662689037894645226208583nat) == 9328470458447856432340118631652056270651746799090133351373440668850487624713nat);
    lemma_fundamental_div_mod_converse(9328470458447856432340118631652056270651746799090133351373440668850487624713int * 9328470458447856432340118631652056270651746799090133351373440668850487624713int, m, 3975666827330942133035822756496116901016060016646851269700749316063311405240int, 5109339304245252174276031464648195969842437933064448236030334606893649157449int);
    assert(mod_pow(3, 274885509016, 21888242871839275222246405745257275088696311157297823662689037894645226208583nat) == 5109339304245252174276031464648195969842437933064448236030334606893649157449nat);
    lemma_fundamental_div_mod_converse(5109339304245252174276031464648195969842437933064448236030334606893649157449int * 5109339304245252174276031464648195969842437933064448236030334606893649157449int, m, 1192665317118336497912393225155536740147977045195548715337531628774883703331int, 6744293915249285105086465061780529931241441618233287797127714766292294297628int);
    lemma_fundamental_div_mod_converse(6744293915249285105086465061780529931241441618233287797127714766292294297628int * 3, m, 0int, 20232881745747855315259395185341589793724324854699863391383144298876882892884int);
    assert(mod_pow(3, 549771018033, 21888242871839275222246405745257275088696311157297823662689037894645226208583nat) == 20232881745747855315259395185341589793724324854699863391383144298876882892884nat);
    lemma_fundamental_div_mod_converse(20232881745747855315259395185341589793724324854699863391383144298876882892884int * 20232881745747855315259395185341589793724324854699863391383144298876882892884int, m, 18702712051139505035705738080757515723799532033567312331435706905705821613939int, 6953115594617363813187082390904795659535725633727600080214784717817703599019int);
    lemma_fundamental_div_mod_converse(6953115594617363813187082390904795659535725633727600080214784717817703599019int * 3, m, 0int, 20859346783852091439561247172714386978607176901182800240644354153453110797057int);
    assert(mod_pow(3, 1099542036067, 21888242871839275222246405745257275088696311157297823662689037894645226208583nat) == 20859346783852091439561247172714386978607176901182800240644354153453110797057nat);
    lemma_fundamental_div_mod_converse(20859346783852091439561247172714386978607176901182800240644354153453110797057int * 20859346783852091439561247172714386978607176901182800240644354153453110797057int, m, 19878815800641651843900295855443572092414969230725495280279244753532090802818int, 12284611622807892102025927900736675132420435831981234736256418236487047674355int);
    assert(mod_pow(3, 2199084072134, 21888242871839275222246405745257275088696311157297823662689037894645226208583nat) == 12284611622807892102025927900736675132420435831981234736256418236487047674355nat);
    lemma_fundamental_div_mod_converse(12284611622807892102025927900736675132420435831981234736256418236487047674355int * 12284611622807892102025927900736675132420435831981234736256418236487047674355int, m, 6894645842832134155294431174847546945256178020484095810845864525639638150089int, 14312410490462974594801012344831337786372253516965119948536523566644750652138int);
    assert(mod_pow(3, 4398168144268, 21888242871839275222246405745257275088696311157297823662689037894645226208583nat) == 14312410490462974594801012344831337786372253516965119948536523566644750652138nat);
    lemma_fundamental_div_mod_converse(14312410490462974594801012344831337786372253516965119948536523566644750652138int * 14312410490462974594801012344831337786372253516965119948536523566644750652138int, m, 9358681518974821845255576562087318228704532606603284247384687248636218403120int, 11376143487849160286277584733364390247318984636174179216893104708527985992084int);
    lemma_fundamental_div_mod_converse(11376143487849160286277584733364390247318984636174179216893104708527985992084int * 3, m, 1int, 12240187591708205636586348454835895653260642751224713987990276230938731767669int);
    assert(mod_pow(3, 8796336288537, 21888242871839275222246405745257275088696311157297823662689037894645226208583nat) == 12240187591708205636586348454835895653260642751224713987990276230938731767669nat);
    lemma_fundamental_div_mod_converse(12240187591708205636586348454835895653260642751224713987990276230938731767669int * 12240187591708205636586348454835895653260642751224713987990276230938731767669int, m, 6844870698733156093469561126044535456126566744877234605367213017974834421242int, 16723567525389026164161212750828988032724499935539624363683760497786615773475int);
    lemma_fundamental_div_mod_converse(16723567525389026164161212750828988032724499935539624363683760497786615773475int * 3, m, 2int, 6394216832488528047990826761972413920780877492023225765673205704069394903259int);
    assert(mod_pow(3, 17592672577075, 21888242871839275222246405745257275088696311157297823662689037894645226208583nat) == 6394216832488528047990826761972413920780877492023225765673205704069394903259nat);
    lemma_fundamental_div_mod_converse(6394216832488528047990826761972413920780877492023225765673205704069394903259int * 6394216832488528047990826761972413920780877492023225765673205704069394903259int, m, 1867943861016010459630774569197282663794453371849879499545227268409587945580int, 20452195603141646657280900911683111916739033041160257160575704298442435907941int);
    assert(mod_pow(3, 35185345154150, 21888242871839275222246405745257275088696311157297823662689037894645226208583nat) == 20452195603141646657280900911683111916739033041160257160575704298442435907941nat);
    lemma_fundamental_div_mod_converse(20452195603141646657280900911683111916739033041160257160575704298442435907941int * 20452195603141646657280900911683111916739033041160257160575704298442435907941int, m, 19110364748708459644438768643162441979575709384310111535035911910228774427874int, 4090639793133668759283070234533636828231062630372571741840555867691013616939int);
    lemma_fundamental_div_mod_converse(4090639793133668759283070234533636828231062630372571741840555867691013616939int * 3, m, 0int, 12271919379401006277849210703600910484693187891117715225521667603073040850817int);
    assert(mod_pow(3, 70370690308301, 21888242871839275222246405745257275088696311157297823662689037894645226208583nat) == 12271919379401006277849210703600910484693187891117715225521667603073040850817nat);
    lemma_fundamental_div_mod_converse(12271919379401006277849210703600910484693187891117715225521667603073040850817int * 12271919379401006277849210703600910484693187891117715225521667603073040850817int, m, 6880406350400799356004156440662135080512388421706199597431721541103271711065int, 14334775544789598599093261142626985009388713317873287276227031092722250496594int);
    lemma_fundamental_div_mod_converse(14334775544789598599093261142626985009388713317873287276227031092722250496594int * 3, m, 1int, 21116083762529520575033377682623679939469828796322038165992055383521525281199int);
    assert(mod_pow(3, 140741380616603, 21888242871839275222246405745257275088696311157297823662689037894645226208583nat) == 21116083762529520575033377682623679939469828796322038165992055383521525281199nat);
    lemma_fundamental_div_mod_converse(21116083762529520575033377682623679939469828796322038165992055383521525281199int * 21116083762529520575033377682623679939469828796322038165992055383521525281199int, m, 20371164377010345937812185951972116399531874278350538875694932797297402001166int, 6917612451450274796388781452979805157105120842604359518114560671360897669823int);
    lemma_fundamental_div_mod_converse(6917612451450274796388781452979805157105120842604359518114560671360897669823int * 3, m, 0int, 20752837354350824389166344358939415471315362527813078554343682014082693009469int);
    assert(mod_pow(3, 281482761233207, 21888242871839275222246405745257275088696311157297823662689037894645226208583nat) == 20752837354350824389166344358939415471315362527813078554343682014082693009469nat);
    lemma_fundamental_div_mod_converse(20752837354350824389166344358939415471315362527813078554343682014082693009469int * 20752837354350824389166344358939415471315362527813078554343682014082693009469int, m, 19676328555831157986185782537161631979268280756909693264353039463581365264311int, 19275243292845670482029568254271649367458695291164106008506897690799911880648int);
    lemma_fundamental_div_mod_converse(19275243292845670482029568254271649367458695291164106008506897690799911880648int * 3, m, 2int, 14049244134858461001595893272300397924983463558896670700142617283109283224778int);
    assert(mod_pow(3, 562965522466415, 21888242871839275222246405745257275088696311157297823662689037894645226208583nat) == 14049244134858461001595893272300397924983463558896670700142617283109283224778nat);
    lemma_fundamental_div_mod_converse(14049244134858461001595893272300397924983463558896670700142617283109283224778int * 14049244134858461001595893272300397924983463558896670700142617283109283224778int, m, 9017684147447001684524492748402573376008689258932350594728204112231196611079int, 12015857261264547426343899323764492898972022638321419395280465840137290458227int);
    assert(mod_pow(3, 1125931044932830, 21888242871839275222246405745257275088696311157297823662689037894645226208583nat) == 12015857261264547426343899323764492898972022638321419395280465840137290458227nat);
    lemma_fundamental_div_mod_converse(12015857261264547426343899323764492898972022638321419395280465840137290458227int * 12015857261264547426343899323764492898972022638321419395280465840137290458227int, m, 6596273011427508380868267362403071512529284531483935319579743253725744117391int, 18715439178285237640152754919243731075605379445026322128072120961569028216576int);
    lemma_fundamental_div_mod_converse(18715439178285237640152754919243731075605379445026322128072120961569028216576int * 3, m, 2int, 12369831791177162475965453267216643049423516020483319058838287095416632232562int);
    assert(mod_pow(3, 2251862089865661, 21888242871839275222246405745257275088696311157297823662689037894645226208583nat) == 12369831791177162475965453267216643049423516020483319058838287095416632232562nat);
    lemma_fundamental_div_mod_converse(12369831791177162475965453267216643049423516020483319058838287095416632232562int * 12369831791177162475965453267216643049423516020483319058838287095416632232562int, m, 6990635997505244428869756883418180413704575174541139939851390416789068079171int, 6135293915997328325566238954967821484589093516379243418787540550221649359151int);
    assert(mod_pow(3, 4503724179731322, 21888242871839275222246405745257275088696311157297823662689037894645226208583nat) == 6135293915997328325566238954967821484589093516379243418787540550221649359151nat);
    lemma_fundamental_div_mod_converse(6135293915997328325566238954967821484589093516379243418787540550221649359151int * 6135293915997328325566238954967821484589093516379243418787540550221649359151int, m, 1719728333428839476667012315428915858011970382368560212873358681047520859813int, 1010220962636733278876817063636305963863625278969460237020367461302747065822int);
    assert(mod_pow(3, 9007448359462644, 21888242871839275222246405745257275088696311157297823662689037894645226208583nat) == 1010220962636733278876817063636305963863625278969460237020367461302747065822nat);
    lemma_fundamental_div_mod_converse(1010220962636733278876817063636305963863625278969460237020367461302747065822int * 1010220962636733278876817063636305963863625278969460237020367461302747065822int, m, 46625322979383189481619573730777091563683617178849934660465840600272902518int, 11946251199068487817961914644757074012448043700899167588275690929028506623690int);
    lemma_fundamental_div_mod_converse(11946251199068487817961914644757074012448043700899167588275690929028506623690int * 3, m, 1int, 13950510725366188231639338189013946948647819945399679102138034892440293662487int);
    assert(mod_pow(3, 18014896718925289, 21888242871839275222246405745257275088696311157297823662689037894645226208583nat) == 13950510725366188231639338189013946948647819945399679102138034892440293662487nat);
    lemma_fundamental_div_mod_converse(13950510725366188231639338189013946948647819945399679102138034892440293662487int * 13950510725366188231639338189013946948647819945399679102138034892440293662487int, m, 8891382951024581306535785782060025840390106587805141740708332597512596921345int, 15217094483638788996142846011357666970338754637516336567970006462463656121034int);
    lemma_fundamental_div_mod_converse(15217094483638788996142846011357666970338754637516336567970006462463656121034int * 3, m, 2int, 1874797707237816543935726543558450733623641597953362378531943598100515945936int);
    assert(mod_pow(3, 36029793437850579, 21888242871839275222246405745257275088696311157297823662689037894645226208583nat) == 1874797707237816543935726543558450733623641597953362378531943598100515945936nat);
    lemma_fundamental_div_mod_converse(1874797707237816543935726543558450733623641597953362378531943598100515945936int * 1874797707237816543935726543558450733623641597953362378531943598100515945936int, m, 160582394102830898137276665349810559567015921874627558791965715174793646392int, 17309752110197591173391194614779420205911598097464873958761538804501137533560int);
    lemma_fundamental_div_mod_converse(17309752110197591173391194614779420205911598097464873958761538804501137533560int * 3, m, 2int, 8152770586914223075680772353823710440342171977798974550906540624212960183514int);
    assert(mod_pow(3, 72059586875701159, 21888242871839275222246405745257275088696311157297823662689037894645226208583nat) == 8152770586914223075680772353823710440342171977798974550906540624212960183514nat);
    lemma_fundamental_div_mod_converse(8152770586914223075680772353823710440342171977798974550906540624212960183514int * 8152770586914223075680772353823710440342171977798974550906540624212960183514int, m, 3036683603706211456508859132108488951809317567731291144748593574043729859515int, 20662010118140437734612211081285800302884961553470216008259626725585880170951int);
    lemma_fundamental_div_mod_converse(20662010118140437734612211081285800302884961553470216008259626725585880170951int * 3, m, 2int, 18209544610742762759343821753342850731262262345815000699400804387467188095687int);
    assert(mod_pow(3, 144119173751402319, 21888242871839275222246405745257275088696311157297823662689037894645226208583nat) == 18209544610742762759343821753342850731262262345815000699400804387467188095687nat);
    lemma_fundamental_div_mod_converse(18209544610742762759343821753342850731262262345815000699400804387467188095687int * 18209544610742762759343821753342850731262262345815000699400804387467188095687int, m, 15149115297749225079586463785611472276305765035878150365040030268896201133686int, 1064995923544039193254523486779370702069181734751242944447727345641364375031int);
    lemma_fundamental_div_mod_converse(1064995923544039193254523486779370702069181734751242944447727345641364375031int * 3, m, 0int, 3194987770632117579763570460338112106207545204253728833343182036924093125093int);
    assert(mod_pow(3, 288238347502804639, 21888242871839275222246405745257275088696311157297823662689037894645226208583nat) == 3194987770632117579763570460338112106207545204253728833343182036924093125093nat);
    lemma_fundamental_div_mod_converse(3194987770632117579763570460338112106207545204253728833343182036924093125093int * 3194987770632117579763570460338112106207545204253728833343182036924093125093int, m, 466366666079990006986348737617833346601595103564272255448106515848341332555int, 18854101825026905217180258395607878441474609407040945523970843536434347939084int);
    lemma_fundamental_div_mod_converse(18854101825026905217180258395607878441474609407040945523970843536434347939084int * 3, m, 2int, 12785819731402165207047963696309085147031205906527189246534454820012591400086int);
    assert(mod_pow(3, 576476695005609279, 21888242871839275222246405745257275088696311157297823662689037894645226208583nat) == 12785819731402165207047963696309085147031205906527189246534454820012591400086nat);
    lemma_fundamental_div_mod_converse(12785819731402165207047963696309085147031205906527189246534454820012591400086int * 12785819731402165207047963696309085147031205906527189246534454820012591400086int, m, 7468721320441740053362305158817169352302963664826910780574775278627847711710int, 864719363118379359857947648995665699207519344077641639519623987970009200466int);
    lemma_fundamental_div_mod_converse(864719363118379359857947648995665699207519344077641639519623987970009200466int * 3, m, 0int, 2594158089355138079573842946986997097622558032232924918558871963910027601398int);
    assert(mod_pow(3, 1152953390011218559, 21888242871839275222246405745257275088696311157297823662689037894645226208583nat) == 2594158089355138079573842946986997097622558032232924918558871963910027601398nat);
    lemma_fundamental_div_mod_converse(2594158089355138079573842946986997097622558032232924918558871963910027601398int * 2594158089355138079573842946986997097622558032232924918558871963910027601398int, m, 307455296067865938148596811564519763895068516675762719598719513279487024277int, 1566344120460675808081362832692619446575084019502310793980358114803584784913int);
    lemma_fundamental_div_mod_converse(1566344120460675808081362832692619446575084019502310793980358114803584784913int * 3, m, 0int, 4699032361382027424244088498077858339725252058506932381941074344410754354739int);
    assert(mod_pow(3, 2305906780022437119, 21888242871839275222246405745257275088696311157297823662689037894645226208583nat) == 4699032361382027424244088498077858339725252058506932381941074344410754354739nat);
    lemma_fundamental_div_mod_converse(4699032361382027424244088498077858339725252058506932381941074344410754354739int * 4699032361382027424244088498077858339725252058506932381941074344410754354739int, m, 1008802088984682766056629551827259579711258108816998127576949686183624706555int, 5405368409027940739871250042165562657253292913354361047577549048403654396556int);
    assert(mod_pow(3, 4611813560044874238, 21888242871839275222246405745257275088696311157297823662689037894645226208583nat) == 5405368409027940739871250042165562657253292913354361047577549048403654396556nat);
    lemma_fundamental_div_mod_converse(5405368409027940739871250042165562657253292913354361047577549048403654396556int * 5405368409027940739871250042165562657253292913354361047577549048403654396556int, m, 1334872232933243848063634726941483295135778206879716787924822747006954167326int, 845416020776733894124136178497088102149368267736409226358729272381745302078int);
    assert(mod_pow(3, 9223627120089748476nat, 21888242871839275222246405745257275088696311157297823662689037894645226208583nat) == 845416020776733894124136178497088102149368267736409226358729272381745302078nat);
    lemma_fundamental_div_mod_converse(845416020776733894124136178497088102149368267736409226358729272381745302078int * 845416020776733894124136178497088102149368267736409226358729272381745302078int, m, 32653523280551397639595378552745530885586221762599360174461665980080718921int, 615277946596978584079158518187064124953749431848036628718500646925730419141int);
    assert(mod_pow(3, 18447254240179496952nat, 21888242871839275222246405745257275088696311157297823662689037894645226208583nat) == 615277946596978584079158518187064124953749431848036628718500646925730419141nat);
    lemma_fundamental_div_mod_converse(615277946596978584079158518187064124953749431848036628718500646925730419141int * 615277946596978584079158518187064124953749431848036628718500646925730419141int, m, 17295447322345219512595431651455800129086592478733196583896982404333697833int, 15831906504284457608273238449282125791312634446303188800409760031840586077242int);
    lemma_fundamental_div_mod_converse(15831906504284457608273238449282125791312634446303188800409760031840586077242int * 3, m, 2int, 3719233769174822380326903857331827196545281024313919075851204306231305814560int);
    assert(mod_pow(3, 36894508480358993905nat, 21888242871839275222246405745257275088696311157297823662689037894645226208583nat) == 3719233769174822380326903857331827196545281024313919075851204306231305814560nat);
    lemma_fundamental_div_mod_converse(3719233769174822380326903857331827196545281024313919075851204306231305814560int * 3719233769174822380326903857331827196545281024313919075851204306231305814560int, m, 631969405253953594024001830721889890183037687148820388031877273990327419695int, 13859205560914070716581748694364424400098198709321063198284007814674855751415int);
    lemma_fundamental_div_mod_converse(13859205560914070716581748694364424400098198709321063198284007814674855751415int * 3, m, 1int, 19689373810902936927498840337835998111598284970665365932162985549379341045662int);
    assert(mod_pow(3, 73789016960717987811nat, 21888242871839275222246405745257275088696311157297823662689037894645226208583nat) == 19689373810902936927498840337835998111598284970665365932162985549379341045662nat);
    lemma_fundamental_div_mod_converse(19689373810902936927498840337835998111598284970665365932162985549379341045662int * 19689373810902936927498840337835998111598284970665365932162985549379341045662int, m, 17711400743101051900357866574569950631025493114257200890583839063312752244510int, 8803949931826084189407619012920158891996867985767422647929221179928892388914int);
    assert(mod_pow(3, 147578033921435975622nat, 21888242871839275222246405745257275088696311157297823662689037894645226208583nat) == 8803949931826084189407619012920158891996867985767422647929221179928892388914nat);
    lemma_fundamental_div_mod_converse(8803949931826084189407619012920158891996867985767422647929221179928892388914int * 8803949931826084189407619012920158891996867985767422647929221179928892388914int, m, 3541149230476688529564936785219957112177482347984038508647261498029289125200int, 5630424397920956876991830378479803487932576837144466116326812054849028507796int);
    assert(mod_pow(3, 295156067842871951244nat, 21888242871839275222246405745257275088696311157297823662689037894645226208583nat) == 5630424397920956876991830378479803487932576837144466116326812054849028507796nat);
    lemma_fundamental_div_mod_converse(5630424397920956876991830378479803487932576837144466116326812054849028507796int * 5630424397920956876991830378479803487932576837144466116326812054849028507796int, m, 1448342796921810139241673984033068176884516971141507047744666360676103889299int, 20366812987967669505209946775985258793436949451329628562445539731688317124299int);
    assert(mod_pow(3, 590312135685743902488nat, 21888242871839275222246405745257275088696311157297823662689037894645226208583nat) == 20366812987967669505209946775985258793436949451329628562445539731688317124299nat);
    lemma_fundamental_div_mod_converse(20366812987967669505209946775985258793436949451329628562445539731688317124299int * 20366812987967669505209946775985258793436949451329628562445539731688317124299int, m, 18951136174595644673703892277704371573840922777828112705990767757535171734511int, 20048473347598329521678197759562697707429289326280037402034063376924630733488int);
    assert(mod_pow(3, 1180624271371487804976nat, 21888242871839275222246405745257275088696311157297823662689037894645226208583nat) == 20048473347598329521678197759562697707429289326280037402034063376924630733488nat);
    lemma_fundamental_div_mod_converse(20048473347598329521678197759562697707429289326280037402034063376924630733488int * 20048473347598329521678197759562697707429289326280037402034063376924630733488int, m, 18363341722897527859757623626164374349601052651209074716285507099557720388922int, 7361509456590893274789235873942261634247718665598890492024211307978630128618int);
    lemma_fundamental_div_mod_converse(7361509456590893274789235873942261634247718665598890492024211307978630128618int * 3, m, 1int, 196285497933404602121301876569509814046844839498847813383596029290664177271int);
    assert(mod_pow(3, 2361248542742975609953nat, 21888242871839275222246405745257275088696311157297823662689037894645226208583nat) == 196285497933404602121301876569509814046844839498847813383596029290664177271nat);
    lemma_fundamental_div_mod_converse(196285497933404602121301876569509814046844839498847813383596029290664177271int * 196285497933404602121301876569509814046844839498847813383596029290664177271int, m, 1760214235768257623526825761986859940814861172485885126116241533114392651int, 16822665423112399097337919764848772662935999710323370422417585858393824683908int);
    assert(mod_pow(3, 4722497085485951219906nat, 21888242871839275222246405745257275088696311157297823662689037894645226208583nat) == 16822665423112399097337919764848772662935999710323370422417585858393824683908nat);
    lemma_fundamental_div_mod_converse(16822665423112399097337919764848772662935999710323370422417585858393824683908int * 16822665423112399097337919764848772662935999710323370422417585858393824683908int, m, 12929410258969806917998486729411210188718376983974888878437475247955931753824int, 6451916004737222695260345885743440323113663593626000157570754942278882281072int);
    assert(mod_pow(3, 9444994170971902439812nat, 21888242871839275222246405745257275088696311157297823662689037894645226208583nat) == 6451916004737222695260345885743440323113663593626000157570754942278882281072nat);
    lemma_fundamental_div_mod_converse(6451916004737222695260345885743440323113663593626000157570754942278882281072int * 6451916004737222695260345885743440323113663593626000157570754942278882281072int, m, 1901807302482950691954004798794132243926882579131678485541806122121495845353int, 652639949590271519546306649512732506047989119141102185637986980219320204385int);
    assert(mod_pow(3, 18889988341943804879624nat, 21888242871839275222246405745257275088696311157297823662689037894645226208583nat) == 652639949590271519546306649512732506047989119141102185637986980219320204385nat);
    lemma_fundamental_div_mod_converse(652639949590271519546306649512732506047989119141102185637986980219320204385int * 652639949590271519546306649512732506047989119141102185637986980219320204385int, m, 19459712060724241404069771960554837610590757788531300870893337179918274547int, 7512347912178399333643463134479354161230406510768360166465585021722091391324int);
    assert(mod_pow(3, 37779976683887609759248nat, 21888242871839275222246405745257275088696311157297823662689037894645226208583nat) == 7512347912178399333643463134479354161230406510768360166465585021722091391324nat);
    lemma_fundamental_div_mod_converse(7512347912178399333643463134479354161230406510768360166465585021722091391324int * 7512347912178399333643463134479354161230406510768360166465585021722091391324int, m, 2578341783031799633499595860945137835338708148813539622373485601712364203299int, 5860690964315486024618609458016877363114940091198952557083513318366911757659int);
    lemma_fundamental_div_mod_converse(5860690964315486024618609458016877363114940091198952557083513318366911757659int * 3, m, 0int, 17582072892946458073855828374050632089344820273596857671250539955100735272977int);
    assert(mod_pow(3, 75559953367775219518497nat, 21888242871839275222246405745257275088696311157297823662689037894645226208583nat) == 17582072892946458073855828374050632089344820273596857671250539955100735272977nat);
    lemma_fundamental_div_mod_converse(17582072892946458073855828374050632089344820273596857671250539955100735272977int * 17582072892946458073855828374050632089344820273596857671250539955100735272977int, m, 14123074612380085133618494935453186551491268809175803704722889405197092718917int, 18032896297859243883206421385728665263407688254571142069844395612619874577918int);
    lemma_fundamental_div_mod_converse(18032896297859243883206421385728665263407688254571142069844395612619874577918int * 3, m, 2int, 10322203149899181205126452666671445612830442449117778884155111048569171316588int);
    assert(mod_pow(3, 151119906735550439036995nat, 21888242871839275222246405745257275088696311157297823662689037894645226208583nat) == 10322203149899181205126452666671445612830442449117778884155111048569171316588nat);
    lemma_fundamental_div_mod_converse(10322203149899181205126452666671445612830442449117778884155111048569171316588int * 10322203149899181205126452666671445612830442449117778884155111048569171316588int, m, 4867813213315068177795225352258894562561992101215992203599186162521573806020int, 19138302172020779225762905876287747536766397272567194389187276394027622892084int);
    lemma_fundamental_div_mod_converse(19138302172020779225762905876287747536766397272567194389187276394027622892084int * 3, m, 2int, 13638420772383787232795906138348692432906569503105935842183753392792416259086int);
    assert(mod_pow(3, 302239813471100878073991nat, 21888242871839275222246405745257275088696311157297823662689037894645226208583nat) == 13638420772383787232795906138348692432906569503105935842183753392792416259086nat);
    lemma_fundamental_div_mod_converse(13638420772383787232795906138348692432906569503105935842183753392792416259086int * 13638420772383787232795906138348692432906569503105935842183753392792416259086int, m, 8498010655935279243449101013684271562201351783001021351942111990872165865944int, 7074622809140313123518210259815081653402351212469774437160600043294517358044int);
    assert(mod_pow(3, 604479626942201756147982nat, 21888242871839275222246405745257275088696311157297823662689037894645226208583nat) == 7074622809140313123518210259815081653402351212469774437160600043294517358044nat);
    lemma_fundamental_div_mod_converse(7074622809140313123518210259815081653402351212469774437160600043294517358044int * 7074622809140313123518210259815081653402351212469774437160600043294517358044int, m, 2286628862109415890292351971043345940820812338493921486296025195199869694690int, 14224264612653826767795922267371691638727389894576485309491069112747223981666int);
    lemma_fundamental_div_mod_converse(14224264612653826767795922267371691638727389894576485309491069112747223981666int * 3, m, 1int, 20784550966122205081141361056857799827485858526431632265784169443596445736415int);
    assert(mod_pow(3, 1208959253884403512295965nat, 21888242871839275222246405745257275088696311157297823662689037894645226208583nat) == 20784550966122205081141361056857799827485858526431632265784169443596445736415nat);
    lemma_fundamental_div_mod_converse(20784550966122205081141361056857799827485858526431632265784169443596445736415int * 20784550966122205081141361056857799827485858526431632265784169443596445736415int, m, 19736511578054808559034094113687963122491405376974680068762434144397366510143int, 16387263177299853406461815290213965633221283782953312225499546626205553894856int);
    assert(mod_pow(3, 2417918507768807024591930nat, 21888242871839275222246405745257275088696311157297823662689037894645226208583nat) == 16387263177299853406461815290213965633221283782953312225499546626205553894856nat);
    lemma_fundamental_div_mod_converse(16387263177299853406461815290213965633221283782953312225499546626205553894856int * 16387263177299853406461815290213965633221283782953312225499546626205553894856int, m, 12268796358596051778566394559366871937385054569884507123649063485913656565213int, 3497010036565467793878038313118198685511425769468150120826280706121023437557int);
    lemma_fundamental_div_mod_converse(3497010036565467793878038313118198685511425769468150120826280706121023437557int * 3, m, 0int, 10491030109696403381634114939354596056534277308404450362478842118363070312671int);
    assert(mod_pow(3, 4835837015537614049183861nat, 21888242871839275222246405745257275088696311157297823662689037894645226208583nat) == 10491030109696403381634114939354596056534277308404450362478842118363070312671nat);
    lemma_fundamental_div_mod_converse(10491030109696403381634114939354596056534277308404450362478842118363070312671int * 10491030109696403381634114939354596056534277308404450362478842118363070312671int, m, 5028348479455080754221761453018837521151314541569172639190313525339852113850int, 17448874259149132996592478618277955362130102784829824507678098425664139979691int);
    assert(mod_pow(3, 9671674031075228098367722nat, 21888242871839275222246405745257275088696311157297823662689037894645226208583nat) == 17448874259149132996592478618277955362130102784829824507678098425664139979691nat);
    lemma_fundamental_div_mod_converse(17448874259149132996592478618277955362130102784829824507678098425664139979691int * 17448874259149132996592478618277955362130102784829824507678098425664139979691int, m, 13909897413616055843544691754810306937206935897802745720461302427932556421589int, 4671901015869797559718364219357443172330080795871127500163417275361694157094int);
    lemma_fundamental_div_mod_converse(4671901015869797559718364219357443172330080795871127500163417275361694157094int * 3, m, 0int, 14015703047609392679155092658072329516990242387613382500490251826085082471282int);
    assert(mod_pow(3, 19343348062150456196735445nat, 21888242871839275222246405745257275088696311157297823662689037894645226208583nat) == 14015703047609392679155092658072329516990242387613382500490251826085082471282nat);
    lemma_fundamental_div_mod_converse(14015703047609392679155092658072329516990242387613382500490251826085082471282int * 14015703047609392679155092658072329516990242387613382500490251826085082471282int, m, 8974678007228284879824329043741000827674416704899447623953213668833272788385int, 14368488744369169626698566712921579602213378844037204994333133184414325015069int);
    assert(mod_pow(3, 38686696124300912393470890nat, 21888242871839275222246405745257275088696311157297823662689037894645226208583nat) == 14368488744369169626698566712921579602213378844037204994333133184414325015069nat);
    lemma_fundamental_div_mod_converse(14368488744369169626698566712921579602213378844037204994333133184414325015069int * 14368488744369169626698566712921579602213378844037204994333133184414325015069int, m, 9432162737132273677719070932612868646951064773165414444884546143220428017015int, 9989735912850488715562892481699645423448319392463753593789272040869614035016int);
    assert(mod_pow(3, 77373392248601824786941780nat, 21888242871839275222246405745257275088696311157297823662689037894645226208583nat) == 9989735912850488715562892481699645423448319392463753593789272040869614035016nat);
    lemma_fundamental_div_mod_converse(9989735912850488715562892481699645423448319392463753593789272040869614035016int * 9989735912850488715562892481699645423448319392463753593789272040869614035016int, m, 4559288938487048133632151483181948409226232062114028197135097980748209942635int, 5098065876726175405773531965852249654831942217482387322180237636323899484051int);
    assert(mod_pow(3, 154746784497203649573883560nat, 21888242871839275222246405745257275088696311157297823662689037894645226208583nat) == 5098065876726175405773531965852249654831942217482387322180237636323899484051nat);
    lemma_fundamental_div_mod_converse(5098065876726175405773531965852249654831942217482387322180237636323899484051int * 5098065876726175405773531965852249654831942217482387322180237636323899484051int, m, 1187408045297144370202488012066146167108827831292959307944274107480357220578int, 237102529465933359539629643002098425727794468053217078449051328493235549627int);
    lemma_fundamental_div_mod_converse(237102529465933359539629643002098425727794468053217078449051328493235549627int * 3, m, 0int, 711307588397800078618888929006295277183383404159651235347153985479706648881int);
    assert(mod_pow(3, 309493568994407299147767121nat, 21888242871839275222246405745257275088696311157297823662689037894645226208583nat) == 711307588397800078618888929006295277183383404159651235347153985479706648881nat);
    lemma_fundamental_div_mod_converse(711307588397800078618888929006295277183383404159651235347153985479706648881int * 711307588397800078618888929006295277183383404159651235347153985479706648881int, m, 23115536878624663158522968624880274955301887160836746615104626330093784861int, 4460097111092719096048233125993704652694452701393842708246461575963504890198int);
    assert(mod_pow(3, 618987137988814598295534242nat, 21888242871839275222246405745257275088696311157297823662689037894645226208583nat) == 4460097111092719096048233125993704652694452701393842708246461575963504890198nat);
    lemma_fundamental_div_mod_converse(4460097111092719096048233125993704652694452701393842708246461575963504890198int * 4460097111092719096048233125993704652694452701393842708246461575963504890198int, m, 908819696348062731307979813666536585002086247085678632568336885450296547913int, 6500956925424366702387907353279796106156090166816799104734723610541845141925int);
    assert(mod_pow(3, 1237974275977629196591068484nat, 21888242871839275222246405745257275088696311157297823662689037894645226208583nat) == 6500956925424366702387907353279796106156090166816799104734723610541845141925nat);
    lemma_fundamental_div_mod_converse(6500956925424366702387907353279796106156090166816799104734723610541845141925int * 6500956925424366702387907353279796106156090166816799104734723610541845141925int, m, 1930828399231468784288033450486700775211632173182758679313982263641849986754int, 1393795732810979217281723612759272638402967670572622491950003490391201596043int);
    lemma_fundamental_div_mod_converse(1393795732810979217281723612759272638402967670572622491950003490391201596043int * 3, m, 0int, 4181387198432937651845170838277817915208903011717867475850010471173604788129int);
    assert(mod_pow(3, 2475948551955258393182136969nat, 21888242871839275222246405745257275088696311157297823662689037894645226208583nat) == 4181387198432937651845170838277817915208903011717867475850010471173604788129nat);
    lemma_fundamental_div_mod_converse(4181387198432937651845170838277817915208903011717867475850010471173604788129int * 4181387198432937651845170838277817915208903011717867475850010471173604788129int, m, 798784946128006197273427824228193941647011719419766329754822038939065007252int, 7339132457221083365889196632740501322411844196212317134356306295139619676725int);
    assert(mod_pow(3, 4951897103910516786364273938nat, 21888242871839275222246405745257275088696311157297823662689037894645226208583nat) == 7339132457221083365889196632740501322411844196212317134356306295139619676725nat);
    lemma_fundamental_div_mod_converse(7339132457221083365889196632740501322411844196212317134356306295139619676725int * 7339132457221083365889196632740501322411844196212317134356306295139619676725int, m, 2460812662762173805523048386351000772835261815266463815404986021999183809678int, 10845172930425667084835768079867926984977229544150974341387884307739704659351int);
    lemma_fundamental_div_mod_converse(10845172930425667084835768079867926984977229544150974341387884307739704659351int * 3, m, 1int, 10647275919437726032260898494346505866235377475155099361474615028573887769470int);
    assert(mod_pow(3, 9903794207821033572728547877nat, 21888242871839275222246405745257275088696311157297823662689037894645226208583nat) == 10647275919437726032260898494346505866235377475155099361474615028573887769470nat);
    lemma_fundamental_div_mod_converse(10647275919437726032260898494346505866235377475155099361474615028573887769470int * 10647275919437726032260898494346505866235377475155099361474615028573887769470int, m, 5179240981946963595523881959476353309332041790415312439547521779903567762473int, 8890135878039470360631095961615892172610026902872164853587379669973366175141int);
    assert(mod_pow(3, 19807588415642067145457095754nat, 21888242871839275222246405745257275088696311157297823662689037894645226208583nat) == 8890135878039470360631095961615892172610026902872164853587379669973366175141nat);
    lemma_fundamental_div_mod_converse(8890135878039470360631095961615892172610026902872164853587379669973366175141int * 8890135878039470360631095961615892172610026902872164853587379669973366175141int, m, 3610820493575934629444104579093376226408027100463162810393156258041672757537int, 12820095345291603993579319364284428528201058151180282462299702727822739029810int);
    lemma_fundamental_div_mod_converse(12820095345291603993579319364284428528201058151180282462299702727822739029810int * 3, m, 1int, 16572043164035536758491552347596010495906863296243023724210070288822990880847int);
    assert(mod_pow(3, 39615176831284134290914191509nat, 21888242871839275222246405745257275088696311157297823662689037894645226208583nat) == 16572043164035536758491552347596010495906863296243023724210070288822990880847nat);
    lemma_fundamental_div_mod_converse(16572043164035536758491552347596010495906863296243023724210070288822990880847int * 16572043164035536758491552347596010495906863296243023724210070288822990880847int, m, 12547037980101666708976761918837196830735381208022356891664887799099812336231int, 10286796420308576657000736237265744969355304730373320782024486222181217366736int);
    assert(mod_pow(3, 79230353662568268581828383018nat, 21888242871839275222246405745257275088696311157297823662689037894645226208583nat) == 10286796420308576657000736237265744969355304730373320782024486222181217366736nat);
    lemma_fundamental_div_mod_converse(10286796420308576657000736237265744969355304730373320782024486222181217366736int * 10286796420308576657000736237265744969355304730373320782024486222181217366736int, m, 4834475805685420710941233211237517935942215369409689584812861175117459803169int, 18827637673747312848638093303697631233589290660800232600563062220090600894169int);
    assert(mod_pow(3, 158460707325136537163656766036nat, 21888242871839275222246405745257275088696311157297823662689037894645226208583nat) == 18827637673747312848638093303697631233589290660800232600563062220090600894169nat);
    lemma_fundamental_div_mod_converse(18827637673747312848638093303697631233589290660800232600563062220090600894169int * 18827637673747312848638093303697631233589290660800232600563062220090600894169int, m, 16194993012891494685866691905720594471271571138990585503701050234845166091065int, 11732139945669986775472567858910149307918818845291303215764824291437875589666int);
    assert(mod_pow(3, 316921414650273074327313532072nat, 21888242871839275222246405745257275088696311157297823662689037894645226208583nat) == 11732139945669986775472567858910149307918818845291303215764824291437875589666nat);
    lemma_fundamental_div_mod_converse(11732139945669986775472567858910149307918818845291303215764824291437875589666int * 11732139945669986775472567858910149307918818845291303215764824291437875589666int, m, 6288449397729986494989065527981578330558252808575280641152369154364680594143int, 20845615681168183720013331206014677129742587673956658681063604910663519862187int);
    assert(mod_pow(3, 633842829300546148654627064144nat, 21888242871839275222246405745257275088696311157297823662689037894645226208583nat) == 20845615681168183720013331206014677129742587673956658681063604910663519862187nat);
    lemma_fundamental_div_mod_converse(20845615681168183720013331206014677129742587673956658681063604910663519862187int * 20845615681168183720013331206014677129742587673956658681063604910663519862187int, m, 19852653119361626818659804570488475135455276807086522437723673827065405684337int, 13724524532516736459903807913228749301142889708015221825135098713116454358498int);
    assert(mod_pow(3, 1267685658601092297309254128288nat, 21888242871839275222246405745257275088696311157297823662689037894645226208583nat) == 13724524532516736459903807913228749301142889708015221825135098713116454358498nat);
    lemma_fundamental_div_mod_converse(13724524532516736459903807913228749301142889708015221825135098713116454358498int * 13724524532516736459903807913228749301142889708015221825135098713116454358498int, m, 8605650748055025728665101083024339306974553346266047051405919335399401707370int, 18333540598679199190064595149709957765434811998012651876686263328258756459294int);
    assert(mod_pow(3, 2535371317202184594618508256576nat, 21888242871839275222246405745257275088696311157297823662689037894645226208583nat) == 18333540598679199190064595149709957765434811998012651876686263328258756459294nat);
    lemma_fundamental_div_mod_converse(18333540598679199190064595149709957765434811998012651876686263328258756459294int * 18333540598679199190064595149709957765434811998012651876686263328258756459294int, m, 15356130359639704572354562975762542617686927428397077005748617587517989284961int, 17396410791331729167014662072390795528791908836886000154271122313362267958173int);
    assert(mod_pow(3, 5070742634404369189237016513152nat, 21888242871839275222246405745257275088696311157297823662689037894645226208583nat) == 17396410791331729167014662072390795528791908836886000154271122313362267958173nat);
    lemma_fundamental_div_mod_converse(17396410791331729167014662072390795528791908836886000154271122313362267958173int * 17396410791331729167014662072390795528791908836886000154271122313362267958173int, m, 13826377484604936032571408375964237206784247879286894316865437502891838347671int, 10683215572965512170626204310171978850656911384281270852434501540147759237736int);
    lemma_fundamental_div_mod_converse(10683215572965512170626204310171978850656911384281270852434501540147759237736int * 3, m, 1int, 10161403847057261289632207185258661463274422995545988894614466725798051504625int);
    assert(mod_pow(3, 10141485268808738378474033026305nat, 21888242871839275222246405745257275088696311157297823662689037894645226208583nat) == 10161403847057261289632207185258661463274422995545988894614466725798051504625nat);
    lemma_fundamental_div_mod_converse(10161403847057261289632207185258661463274422995545988894614466725798051504625int * 10161403847057261289632207185258661463274422995545988894614466725798051504625int, m, 4717332896366643617891015392795661569819379031011650989309505529713428227381int, 17333579578415914834978132123674683614501531417170667397152689014093338579502int);
    assert(mod_pow(3, 20282970537617476756948066052610nat, 21888242871839275222246405745257275088696311157297823662689037894645226208583nat) == 17333579578415914834978132123674683614501531417170667397152689014093338579502nat);
    lemma_fundamental_div_mod_converse(17333579578415914834978132123674683614501531417170667397152689014093338579502int * 17333579578415914834978132123674683614501531417170667397152689014093338579502int, m, 13726683441905270449211942301018689232192299352084180967651309619549216444017int, 6934368831872623954342790497979914885275744837966605555334388539924790170093int);
    lemma_fundamental_div_mod_converse(6934368831872623954342790497979914885275744837966605555334388539924790170093int * 3, m, 0int, 20803106495617871863028371493939744655827234513899816666003165619774370510279int);
    assert(mod_pow(3, 40565941075234953513896132105221nat, 21888242871839275222246405745257275088696311157297823662689037894645226208583nat) == 20803106495617871863028371493939744655827234513899816666003165619774370510279nat);
    lemma_fundamental_div_mod_converse(20803106495617871863028371493939744655827234513899816666003165619774370510279int * 20803106495617871863028371493939744655827234513899816666003165619774370510279int, m, 19771767080710063962639643563756281060964999694501068837325494210504698315454int, 13221464428626215482406337284663342036326745162780804963972283727147508316159int);
    assert(mod_pow(3, 81131882150469907027792264210442nat, 21888242871839275222246405745257275088696311157297823662689037894645226208583nat) == 13221464428626215482406337284663342036326745162780804963972283727147508316159nat);
    lemma_fundamental_div_mod_converse(13221464428626215482406337284663342036326745162780804963972283727147508316159int * 13221464428626215482406337284663342036326745162780804963972283727147508316159int, m, 7986347860856829340247269032644861825219359229631378224930937853243043555171int, 282499013489125805877281485926648765211939195243338379187478725545986280588int);
    lemma_fundamental_div_mod_converse(282499013489125805877281485926648765211939195243338379187478725545986280588int * 3, m, 0int, 847497040467377417631844457779946295635817585730015137562436176637958841764int);
    assert(mod_pow(3, 162263764300939814055584528420885nat, 21888242871839275222246405745257275088696311157297823662689037894645226208583nat) == 847497040467377417631844457779946295635817585730015137562436176637958841764nat);
    lemma_fundamental_div_mod_converse(847497040467377417631844457779946295635817585730015137562436176637958841764int * 847497040467377417631844457779946295635817585730015137562436176637958841764int, m, 32814476603101064845002673960012909942431270159495277617493761188096322611int, 11912162271977867671445834297642852913654788235586032228178143729164045461483int);
    lemma_fundamental_div_mod_converse(11912162271977867671445834297642852913654788235586032228178143729164045461483int * 3, m, 1int, 13848243944094327792091097147671283652268053549460273021845393292846910175866int);
    assert(mod_pow(3, 324527528601879628111169056841771nat, 21888242871839275222246405745257275088696311157297823662689037894645226208583nat) == 13848243944094327792091097147671283652268053549460273021845393292846910175866nat);
    lemma_fundamental_div_mod_converse(13848243944094327792091097147671283652268053549460273021845393292846910175866int * 13848243944094327792091097147671283652268053549460273021845393292846910175866int, m, 8761500932625132741507065059474970731616994026619970495338138711705516218315int, 20449444470539978619013398568026762793879391495753320002068087969175494052311int);
    assert(mod_pow(3, 649055057203759256222338113683542nat, 21888242871839275222246405745257275088696311157297823662689037894645226208583nat) == 20449444470539978619013398568026762793879391495753320002068087969175494052311nat);
    lemma_fundamental_div_mod_converse(20449444470539978619013398568026762793879391495753320002068087969175494052311int * 20449444470539978619013398568026762793879391495753320002068087969175494052311int, m, 19105223822772683884999197452353476779573861963380611284985516661991770534261int, 15410136854735600853869390523789317779998406693128749536891325811974670678558int);
    assert(mod_pow(3, 1298110114407518512444676227367084nat, 21888242871839275222246405745257275088696311157297823662689037894645226208583nat) == 15410136854735600853869390523789317779998406693128749536891325811974670678558nat);
    lemma_fundamental_div_mod_converse(15410136854735600853869390523789317779998406693128749536891325811974670678558int * 15410136854735600853869390523789317779998406693128749536891325811974670678558int, m, 10849309342560560281300284874289149357365620774289642565473480060170886153925int, 9670449182585560831163368190862367687342275224714557750288838590353466821089int);
    lemma_fundamental_div_mod_converse(9670449182585560831163368190862367687342275224714557750288838590353466821089int * 3, m, 1int, 7123104675917407271243698827329827973330514516845849588177477876415174254684int);
    assert(mod_pow(3, 2596220228815037024889352454734169nat, 21888242871839275222246405745257275088696311157297823662689037894645226208583nat) == 7123104675917407271243698827329827973330514516845849588177477876415174254684nat);
    lemma_fundamental_div_mod_converse(7123104675917407271243698827329827973330514516845849588177477876415174254684int * 7123104675917407271243698827329827973330514516845849588177477876415174254684int, m, 2318076445019492380230255525661908277030965669332001172417858164247554871540int, 21781676319580846597343327629174587295902592647067625204503954568409085512036int);
    lemma_fundamental_div_mod_converse(21781676319580846597343327629174587295902592647067625204503954568409085512036int * 3, m, 2int, 21568543215063989347537171397009211710315155626607228288133787915936804118942int);
    assert(mod_pow(3, 5192440457630074049778704909468339nat, 21888242871839275222246405745257275088696311157297823662689037894645226208583nat) == 21568543215063989347537171397009211710315155626607228288133787915936804118942nat);
    lemma_fundamental_div_mod_converse(21568543215063989347537171397009211710315155626607228288133787915936804118942int * 21568543215063989347537171397009211710315155626607228288133787915936804118942int, m, 21253513091203733990090439955570659003819219587191176237723776839144800498655int, 20298297687602630349679873630796820734918096674868328936947810671603442243499int);
    lemma_fundamental_div_mod_converse(20298297687602630349679873630796820734918096674868328936947810671603442243499int * 3, m, 2int, 17118407319129340604546809401875912027361667710009339485465356225519874313331int);
    assert(mod_pow(3, 10384880915260148099557409818936679nat, 21888242871839275222246405745257275088696311157297823662689037894645226208583nat) == 17118407319129340604546809401875912027361667710009339485465356225519874313331nat);
    lemma_fundamental_div_mod_converse(17118407319129340604546809401875912027361667710009339485465356225519874313331int * 17118407319129340604546809401875912027361667710009339485465356225519874313331int, m, 13388003361413576785940200911877745341677634051565791875886557419845648251115int, 6631021433808754224944657554439074921515326247753565226434678662602611995516int);
    assert(mod_pow(3, 20769761830520296199114819637873358nat, 21888242871839275222246405745257275088696311157297823662689037894645226208583nat) == 6631021433808754224944657554439074921515326247753565226434678662602611995516nat);
    lemma_fundamental_div_mod_converse(6631021433808754224944657554439074921515326247753565226434678662602611995516int * 6631021433808754224944657554439074921515326247753565226434678662602611995516int, m, 2008861355984042851217639652307866982927273038609156505371091595107445558326int, 17596446510310527563774093178396850377728638258168243023434920767007035794198int);
    lemma_fundamental_div_mod_converse(17596446510310527563774093178396850377728638258168243023434920767007035794198int * 3, m, 2int, 9012853787253032246829468044676000955793292459909081744926686511730654965428int);
    assert(mod_pow(3, 41539523661040592398229639275746717nat, 21888242871839275222246405745257275088696311157297823662689037894645226208583nat) == 9012853787253032246829468044676000955793292459909081744926686511730654965428nat);
    lemma_fundamental_div_mod_converse(9012853787253032246829468044676000955793292459909081744926686511730654965428int * 9012853787253032246829468044676000955793292459909081744926686511730654965428int, m, 3711194812029030542025861658083858168032947763745071016557325064278283421483int, 3182016960286549699046089963092030185275523372577177792140303851610814034595int);
    lemma_fundamental_div_mod_converse(3182016960286549699046089963092030185275523372577177792140303851610814034595int * 3, m, 0int, 9546050880859649097138269889276090555826570117731533376420911554832442103785int);
    assert(mod_pow(3, 83079047322081184796459278551493435nat, 21888242871839275222246405745257275088696311157297823662689037894645226208583nat) == 9546050880859649097138269889276090555826570117731533376420911554832442103785nat);
    lemma_fundamental_div_mod_converse(9546050880859649097138269889276090555826570117731533376420911554832442103785int * 9546050880859649097138269889276090555826570117731533376420911554832442103785int, m, 4163289303464488083062340398591394410013019726885391962241422584825104619768int, 6197583428520354670740876812452019782500312148985187181683667372772238257481int);
    assert(mod_pow(3, 166158094644162369592918557102986870nat, 21888242871839275222246405745257275088696311157297823662689037894645226208583nat) == 6197583428520354670740876812452019782500312148985187181683667372772238257481nat);
    lemma_fundamental_div_mod_converse(6197583428520354670740876812452019782500312148985187181683667372772238257481int * 6197583428520354670740876812452019782500312148985187181683667372772238257481int, m, 1754825208143467005841534127459101205264061075522709493197356113343634849772int, 5725244976958761385523909433994123298177007394099811389845556878914910472285int);
    assert(mod_pow(3, 332316189288324739185837114205973740nat, 21888242871839275222246405745257275088696311157297823662689037894645226208583nat) == 5725244976958761385523909433994123298177007394099811389845556878914910472285nat);
    lemma_fundamental_div_mod_converse(5725244976958761385523909433994123298177007394099811389845556878914910472285int * 5725244976958761385523909433994123298177007394099811389845556878914910472285int, m, 1497535925479117614801428126742281994680675410103256972144443062374273090113int, 5060283679387755979085937255538459178749062954839413990477674680507260081346int);
    assert(mod_pow(3, 664632378576649478371674228411947480nat, 21888242871839275222246405745257275088696311157297823662689037894645226208583nat) == 5060283679387755979085937255538459178749062954839413990477674680507260081346nat);
    lemma_fundamental_div_mod_converse(5060283679387755979085937255538459178749062954839413990477674680507260081346int * 5060283679387755979085937255538459178749062954839413990477674680507260081346int, m, 1169873299826299239725983055426038540352123692572769517954925387794666323189int, 2872921662821225242773109498907610515474953122091117666486369300319133440529int);
    assert(mod_pow(3, 1329264757153298956743348456823894960nat, 21888242871839275222246405745257275088696311157297823662689037894645226208583nat) == 2872921662821225242773109498907610515474953122091117666486369300319133440529nat);
    lemma_fundamental_div_mod_converse(2872921662821225242773109498907610515474953122091117666486369300319133440529int * 2872921662821225242773109498907610515474953122091117666486369300319133440529int, m, 377082753011955904846518620435367291294187341691215075577930159935226076212int, 12196250788846690868943966029044876677815177142268031926436164716652213272245int);
    lemma_fundamental_div_mod_converse(12196250788846690868943966029044876677815177142268031926436164716652213272245int * 3, m, 1int, 14700509494700797384585492341877354944749220269506272116619456255311413608152int);
    assert(mod_pow(3, 2658529514306597913486696913647789921nat, 21888242871839275222246405745257275088696311157297823662689037894645226208583nat) == 14700509494700797384585492341877354944749220269506272116619456255311413608152nat);
    lemma_fundamental_div_mod_converse(14700509494700797384585492341877354944749220269506272116619456255311413608152int * 14700509494700797384585492341877354944749220269506272116619456255311413608152int, m, 9873107707600511053460833802838842816919924923815146690871416905067434288769int, 14021871630735548987897582199056631407954846199900050868156938290334352550777int);
    assert(mod_pow(3, 5317059028613195826973393827295579842nat, 21888242871839275222246405745257275088696311157297823662689037894645226208583nat) == 14021871630735548987897582199056631407954846199900050868156938290334352550777nat);
    lemma_fundamental_div_mod_converse(14021871630735548987897582199056631407954846199900050868156938290334352550777int * 14021871630735548987897582199056631407954846199900050868156938290334352550777int, m, 8982579605866049483001207432758227962975507532013487908357843809515824409559int, 13238609228721355458399397097815331313637148924758869398833261403768210258832int);
    assert(mod_pow(3, 10634118057226391653946787654591159684nat, 21888242871839275222246405745257275088696311157297823662689037894645226208583nat) == 13238609228721355458399397097815331313637148924758869398833261403768210258832nat);
    lemma_fundamental_div_mod_converse(13238609228721355458399397097815331313637148924758869398833261403768210258832int * 13238609228721355458399397097815331313637148924758869398833261403768210258832int, m, 8007073721585538571930905029213819470148944100188952274576600299713082251243int, 3324033893437542583311340301447369915378156114637268503888798430377304985555int);
    assert(mod_pow(3, 21268236114452783307893575309182319368nat, 21888242871839275222246405745257275088696311157297823662689037894645226208583nat) == 3324033893437542583311340301447369915378156114637268503888798430377304985555nat);
    lemma_fundamental_div_mod_converse(3324033893437542583311340301447369915378156114637268503888798430377304985555int * 3324033893437542583311340301447369915378156114637268503888798430377304985555int, m, 504800745743602062767547824441182761612557122034770458532504979292018805831int, 10310175358412315069229988041394218868576547695341774102927027832387376010552int);
    lemma_fundamental_div_mod_converse(10310175358412315069229988041394218868576547695341774102927027832387376010552int * 3, m, 1int, 9042283203397669985443558378925381517033331928727498646092045602516901823073int);
    assert(mod_pow(3, 42536472228905566615787150618364638737nat, 21888242871839275222246405745257275088696311157297823662689037894645226208583nat) == 9042283203397669985443558378925381517033331928727498646092045602516901823073nat);
    lemma_fundamental_div_mod_converse(9042283203397669985443558378925381517033331928727498646092045602516901823073int * 9042283203397669985443558378925381517033331928727498646092045602516901823073int, m, 3735470499353841925626042563614328948148490183727426974999965892387183925426int, 15963111381748342681627720778354600238512124460346807665008084481290002031971int);
    assert(mod_pow(3, 85072944457811133231574301236729277474nat, 21888242871839275222246405745257275088696311157297823662689037894645226208583nat) == 15963111381748342681627720778354600238512124460346807665008084481290002031971nat);
    lemma_fundamental_div_mod_converse(15963111381748342681627720778354600238512124460346807665008084481290002031971int * 15963111381748342681627720778354600238512124460346807665008084481290002031971int, m, 11641908694002480616525857258123371643984088061920422041332926124756815750269int, 2011258398402220006005425309035794444910166378086217441510289729343473786014int);
    assert(mod_pow(3, 170145888915622266463148602473458554948nat, 21888242871839275222246405745257275088696311157297823662689037894645226208583nat) == 2011258398402220006005425309035794444910166378086217441510289729343473786014nat);
    lemma_fundamental_div_mod_converse(2011258398402220006005425309035794444910166378086217441510289729343473786014int * 2011258398402220006005425309035794444910166378086217441510289729343473786014int, m, 184809734103774917097253743329203821589139000439084717078946534703323719564int, 20781486694621314732883488372552409883109836680677558658333385572018200190384int);
    assert(mod_pow(3, 340291777831244532926297204946917109896nat, 21888242871839275222246405745257275088696311157297823662689037894645226208583nat) == 20781486694621314732883488372552409883109836680677558658333385572018200190384nat);
    lemma_fundamental_div_mod_converse(20781486694621314732883488372552409883109836680677558658333385572018200190384int * 20781486694621314732883488372552409883109836680677558658333385572018200190384int, m, 19730692489453017638742081450000297504047682823823090579790710167067854418641int, 17642296396960648729139833789038407947475993725648225304477531535677776671753int);
    lemma_fundamental_div_mod_converse(17642296396960648729139833789038407947475993725648225304477531535677776671753int * 3, m, 2int, 9150403447203395742926689876600673665035358862349028588054518817742877598093int);
    assert(mod_pow(3, 680583555662489065852594409893834219793nat, 21888242871839275222246405745257275088696311157297823662689037894645226208583nat) == 9150403447203395742926689876600673665035358862349028588054518817742877598093nat);
    lemma_fundamental_div_mod_converse(9150403447203395742926689876600673665035358862349028588054518817742877598093int * 9150403447203395742926689876600673665035358862349028588054518817742877598093int, m, 3825335991420125461976745762341033138823502324014127742879004733746301649814int, 11307211652922838889699813110242354051246365534058451355331098686699850083087int);
    lemma_fundamental_div_mod_converse(11307211652922838889699813110242354051246365534058451355331098686699850083087int * 3, m, 1int, 12033392086929241446853033585469787065042785444877530403304258165454324040678int);
    assert(mod_pow(3, 1361167111324978131705188819787668439587nat, 21888242871839275222246405745257275088696311157297823662689037894645226208583nat) == 12033392086929241446853033585469787065042785444877530403304258165454324040678nat);
    lemma_fundamental_div_mod_converse(12033392086929241446853033585469787065042785444877530403304258165454324040678int * 12033392086929241446853033585469787065042785444877530403304258165454324040678int, m, 6615539034614316106306181479455184219749354667350836371184156428994937885973int, 9424397102909520557615389192901975799287078428717132041321323350041030793425int);
    assert(mod_pow(3, 2722334222649956263410377639575336879174nat, 21888242871839275222246405745257275088696311157297823662689037894645226208583nat) == 9424397102909520557615389192901975799287078428717132041321323350041030793425nat);
    lemma_fundamental_div_mod_converse(9424397102909520557615389192901975799287078428717132041321323350041030793425int * 9424397102909520557615389192901975799287078428717132041321323350041030793425int, m, 4057852486076049131780141298449806805574199030803688558354993150913464992348int, 18204840667548231628560741515918614148979263612379253747621678261085876307741int);
    assert(mod_pow(3, 5444668445299912526820755279150673758348nat, 21888242871839275222246405745257275088696311157297823662689037894645226208583nat) == 18204840667548231628560741515918614148979263612379253747621678261085876307741nat);
    lemma_fundamental_div_mod_converse(18204840667548231628560741515918614148979263612379253747621678261085876307741int * 18204840667548231628560741515918614148979263612379253747621678261085876307741int, m, 15141289580499293181689142345260429132180769818150537200960551589339366217875int, 8090109825754358080886351833354880262111779610511743329276955315588363501956int);
    lemma_fundamental_div_mod_converse(8090109825754358080886351833354880262111779610511743329276955315588363501956int * 3, m, 1int, 2382086605423799020412649754807365697639027674237406325141828052119864297285int);
    assert(mod_pow(3, 10889336890599825053641510558301347516697nat, 21888242871839275222246405745257275088696311157297823662689037894645226208583nat) == 2382086605423799020412649754807365697639027674237406325141828052119864297285nat);
    lemma_fundamental_div_mod_converse(2382086605423799020412649754807365697639027674237406325141828052119864297285int * 2382086605423799020412649754807365697639027674237406325141828052119864297285int, m, 259241302692227567558468895647906973642591351196259060849459178524200280358int, 13878423906349937390091120523570156847731315084505541547642957144088872458511int);
    assert(mod_pow(3, 21778673781199650107283021116602695033394nat, 21888242871839275222246405745257275088696311157297823662689037894645226208583nat) == 13878423906349937390091120523570156847731315084505541547642957144088872458511nat);
    lemma_fundamental_div_mod_converse(13878423906349937390091120523570156847731315084505541547642957144088872458511int * 13878423906349937390091120523570156847731315084505541547642957144088872458511int, m, 8799731036069243344408089232729075682128799302095238993396370831332679470422int, 10287549244559657477233678400456941529956018349406486597593691935002065305095int);
    assert(mod_pow(3, 43557347562399300214566042233205390066788nat, 21888242871839275222246405745257275088696311157297823662689037894645226208583nat) == 10287549244559657477233678400456941529956018349406486597593691935002065305095nat);
    lemma_fundamental_div_mod_converse(10287549244559657477233678400456941529956018349406486597593691935002065305095int * 10287549244559657477233678400456941529956018349406486597593691935002065305095int, m, 4835183439754419453505694627144244296518128258916762150489777666946299129115int, 11863315179938508768843161772406880628463840532894755694614492782869194764980int);
    assert(mod_pow(3, 87114695124798600429132084466410780133576nat, 21888242871839275222246405745257275088696311157297823662689037894645226208583nat) == 11863315179938508768843161772406880628463840532894755694614492782869194764980nat);
    lemma_fundamental_div_mod_converse(11863315179938508768843161772406880628463840532894755694614492782869194764980int * 11863315179938508768843161772406880628463840532894755694614492782869194764980int, m, 6429855876628125978550356377202885574984222066289398643392264226662404320242int, 10932019846149485665826690215835500416914692312871734859117357983892413363314int);
    lemma_fundamental_div_mod_converse(10932019846149485665826690215835500416914692312871734859117357983892413363314int * 3, m, 1int, 10907816666609181775233664902249226162047765781317380914663036057032013881359int);
    assert(mod_pow(3, 174229390249597200858264168932821560267153nat, 21888242871839275222246405745257275088696311157297823662689037894645226208583nat) == 10907816666609181775233664902249226162047765781317380914663036057032013881359nat);
    lemma_fundamental_div_mod_converse(10907816666609181775233664902249226162047765781317380914663036057032013881359int * 10907816666609181775233664902249226162047765781317380914663036057032013881359int, m, 5435816165281753373194198872848342842560338959146060723568663479048542303901int, 5121849647668203588042267426325125201404743382242144217136980072742127104598int);
    assert(mod_pow(3, 348458780499194401716528337865643120534306nat, 21888242871839275222246405745257275088696311157297823662689037894645226208583nat) == 5121849647668203588042267426325125201404743382242144217136980072742127104598nat);
    lemma_fundamental_div_mod_converse(5121849647668203588042267426325125201404743382242144217136980072742127104598int * 5121849647668203588042267426325125201404743382242144217136980072742127104598int, m, 1198513008418318320341240206812740196942494297367026682938527613757676984828int, 14775715922467537834237772422622685067695851607908450949252558628841178362880int);
    assert(mod_pow(3, 696917560998388803433056675731286241068612nat, 21888242871839275222246405745257275088696311157297823662689037894645226208583nat) == 14775715922467537834237772422622685067695851607908450949252558628841178362880nat);
    lemma_fundamental_div_mod_converse(14775715922467537834237772422622685067695851607908450949252558628841178362880int * 14775715922467537834237772422622685067695851607908450949252558628841178362880int, m, 9974385897478625779193534615742675258645130130940029799005680720131221812802int, 4103295797173009268586541367169401657671726265275320618857203951854330214834int);
    lemma_fundamental_div_mod_converse(4103295797173009268586541367169401657671726265275320618857203951854330214834int * 3, m, 0int, 12309887391519027805759624101508204973015178795825961856571611855562990644502int);
    assert(mod_pow(3, 1393835121996777606866113351462572482137225nat, 21888242871839275222246405745257275088696311157297823662689037894645226208583nat) == 12309887391519027805759624101508204973015178795825961856571611855562990644502nat);
    lemma_fundamental_div_mod_converse(12309887391519027805759624101508204973015178795825961856571611855562990644502int * 12309887391519027805759624101508204973015178795825961856571611855562990644502int, m, 6923046700420029938480378399202662994743835639840466464395531306819786421297int, 14871105273338676791406708707600411958376107747373081182334295839488107435853int);
    assert(mod_pow(3, 2787670243993555213732226702925144964274450nat, 21888242871839275222246405745257275088696311157297823662689037894645226208583nat) == 14871105273338676791406708707600411958376107747373081182334295839488107435853nat);
    lemma_fundamental_div_mod_converse(14871105273338676791406708707600411958376107747373081182334295839488107435853int * 14871105273338676791406708707600411958376107747373081182334295839488107435853int, m, 10103587270371791303317977275546596912334114382967314318087481620191205361845int, 3009023100156186023294267348779422916775549165506505563627290695000550121974int);
    assert(mod_pow(3, 5575340487987110427464453405850289928548900nat, 21888242871839275222246405745257275088696311157297823662689037894645226208583nat) == 3009023100156186023294267348779422916775549165506505563627290695000550121974nat);
    lemma_fundamental_div_mod_converse(3009023100156186023294267348779422916775549165506505563627290695000550121974int * 3009023100156186023294267348779422916775549165506505563627290695000550121974int, m, 413656777763665048465746216924287221620823877566190100088798203061363437324int, 9840394131397482559597531329026944009500720912940348214213936479001206304784int);
    lemma_fundamental_div_mod_converse(9840394131397482559597531329026944009500720912940348214213936479001206304784int * 3, m, 1int, 7632939522353172456546188241823556939805851581523220979952771542358392705769int);
    assert(mod_pow(3, 11150680975974220854928906811700579857097801nat, 21888242871839275222246405745257275088696311157297823662689037894645226208583nat) == 7632939522353172456546188241823556939805851581523220979952771542358392705769nat);
    lemma_fundamental_div_mod_converse(7632939522353172456546188241823556939805851581523220979952771542358392705769int * 7632939522353172456546188241823556939805851581523220979952771542358392705769int, m, 2661783592819085156568213246251787059964621603818468813732805380299309517356int, 10285524956508158975291113370514574709118150810855305360728573264005491214813int);
    assert(mod_pow(3, 22301361951948441709857813623401159714195602nat, 21888242871839275222246405745257275088696311157297823662689037894645226208583nat) == 10285524956508158975291113370514574709118150810855305360728573264005491214813nat);
    lemma_fundamental_div_mod_converse(10285524956508158975291113370514574709118150810855305360728573264005491214813int * 10285524956508158975291113370514574709118150810855305360728573264005491214813int, m, 4833280782308060710729109030109950382674708966597052794745473157233685665694int, 6821656198264532679511403770705796679734449787325557839223841661188459173367int);
    assert(mod_pow(3, 44602723903896883419715627246802319428391204nat, 21888242871839275222246405745257275088696311157297823662689037894645226208583nat) == 6821656198264532679511403770705796679734449787325557839223841661188459173367nat);
    lemma_fundamental_div_mod_converse(6821656198264532679511403770705796679734449787325557839223841661188459173367int * 6821656198264532679511403770705796679734449787325557839223841661188459173367int, m, 2126026906764241719059213298690817300754892483965964247549958887110857218691int, 16140029144892412216437384088187441147040521043255009104220758415122549891836int);
    assert(mod_pow(3, 89205447807793766839431254493604638856782408nat, 21888242871839275222246405745257275088696311157297823662689037894645226208583nat) == 16140029144892412216437384088187441147040521043255009104220758415122549891836nat);
    lemma_fundamental_div_mod_converse(16140029144892412216437384088187441147040521043255009104220758415122549891836int * 16140029144892412216437384088187441147040521043255009104220758415122549891836int, m, 11901391186276002664856177206400505201645075461155084640320601050434368207208int, 3561128904507580069932617759945333685212645333144738892641572301202527384632int);
    assert(mod_pow(3, 178410895615587533678862508987209277713564816nat, 21888242871839275222246405745257275088696311157297823662689037894645226208583nat) == 3561128904507580069932617759945333685212645333144738892641572301202527384632nat);
    lemma_fundamental_div_mod_converse(3561128904507580069932617759945333685212645333144738892641572301202527384632int * 3561128904507580069932617759945333685212645333144738892641572301202527384632int, m, 579381321231370073158694168451706773731674673813243031691881952485740340554int, 15394822946035647818915564823880946300270039310494054780197352406405412000442int);
    lemma_fundamental_div_mod_converse(15394822946035647818915564823880946300270039310494054780197352406405412000442int * 3, m, 2int, 2407983094428393012253882981128288723417495616886517015213981429925783584160int);
    assert(mod_pow(3, 356821791231175067357725017974418555427129633nat, 21888242871839275222246405745257275088696311157297823662689037894645226208583nat) == 2407983094428393012253882981128288723417495616886517015213981429925783584160nat);
    lemma_fundamental_div_mod_converse(2407983094428393012253882981128288723417495616886517015213981429925783584160int * 2407983094428393012253882981128288723417495616886517015213981429925783584160int, m, 264908545514768375486645127219664767101373829626352843741499946331790763539int, 4559693209550516486504891990695179439400061435092551942948494195008157650363int);
    assert(mod_pow(3, 713643582462350134715450035948837110854259266nat, 21888242871839275222246405745257275088696311157297823662689037894645226208583nat) == 4559693209550516486504891990695179439400061435092551942948494195008157650363nat);
    lemma_fundamental_div_mod_converse(4559693209550516486504891990695179439400061435092551942948494195008157650363int * 4559693209550516486504891990695179439400061435092551942948494195008157650363int, m, 949861635168982994800445356308099642009358461716018713796715088333815014242int, 12451652163583864230929523982886607740682749250457172871971750169999146392683int);
    lemma_fundamental_div_mod_converse(12451652163583864230929523982886607740682749250457172871971750169999146392683int * 3, m, 1int, 15466713618912317470542166203402548133351936594073694953226212615352212969466int);
    assert(mod_pow(3, 1427287164924700269430900071897674221708518533nat, 21888242871839275222246405745257275088696311157297823662689037894645226208583nat) == 15466713618912317470542166203402548133351936594073694953226212615352212969466nat);
    lemma_fundamental_div_mod_converse(15466713618912317470542166203402548133351936594073694953226212615352212969466int * 15466713618912317470542166203402548133351936594073694953226212615352212969466int, m, 10929119873629495076570872107636294010596194564816138869752694277913886515567int, 10681555941936900926599469336129889170967670177098056856912196136633229813595int);
    assert(mod_pow(3, 2854574329849400538861800143795348443417037066nat, 21888242871839275222246405745257275088696311157297823662689037894645226208583nat) == 10681555941936900926599469336129889170967670177098056856912196136633229813595nat);
    lemma_fundamental_div_mod_converse(10681555941936900926599469336129889170967670177098056856912196136633229813595int * 10681555941936900926599469336129889170967670177098056856912196136633229813595int, m, 5212644889257847777709275643675571601800739264864656425702016893777855737936int, 17444627503014246996473541637018764931067941044205531719960686649581524919337int);
    assert(mod_pow(3, 5709148659698801077723600287590696886834074132nat, 21888242871839275222246405745257275088696311157297823662689037894645226208583nat) == 17444627503014246996473541637018764931067941044205531719960686649581524919337nat);
    lemma_fundamental_div_mod_converse(17444627503014246996473541637018764931067941044205531719960686649581524919337int * 17444627503014246996473541637018764931067941044205531719960686649581524919337int, m, 13903127377595175797895773468641521729675955257191276942146526310214980863349int, 6599600182671486798616330515003325843493580982320679925921542123329062595102int);
    assert(mod_pow(3, 11418297319397602155447200575181393773668148264nat, 21888242871839275222246405745257275088696311157297823662689037894645226208583nat) == 6599600182671486798616330515003325843493580982320679925921542123329062595102nat);
    lemma_fundamental_div_mod_converse(6599600182671486798616330515003325843493580982320679925921542123329062595102int * 6599600182671486798616330515003325843493580982320679925921542123329062595102int, m, 1989868388528969493228948319384348058538935216727405858625809535583091514187int, 15683985785280446656872478780455943244097548004285143896607386548464228723383int);
    lemma_fundamental_div_mod_converse(15683985785280446656872478780455943244097548004285143896607386548464228723383int * 3, m, 2int, 3275471612162789526124624850853279554900021698259784364444083856102233752983int);
    assert(mod_pow(3, 22836594638795204310894401150362787547336296529nat, 21888242871839275222246405745257275088696311157297823662689037894645226208583nat) == 3275471612162789526124624850853279554900021698259784364444083856102233752983nat);
    lemma_fundamental_div_mod_converse(3275471612162789526124624850853279554900021698259784364444083856102233752983int * 3275471612162789526124624850853279554900021698259784364444083856102233752983int, m, 490158773589246389785759707616430989185336167205196441117640460872911103697int, 5050241419653078191123502107318599030876569095050661507954340978571796966938int);
    lemma_fundamental_div_mod_converse(5050241419653078191123502107318599030876569095050661507954340978571796966938int * 3, m, 0int, 15150724258959234573370506321955797092629707285151984523863022935715390900814int);
    assert(mod_pow(3, 45673189277590408621788802300725575094672593059nat, 21888242871839275222246405745257275088696311157297823662689037894645226208583nat) == 15150724258959234573370506321955797092629707285151984523863022935715390900814nat);
    lemma_fundamental_div_mod_converse(15150724258959234573370506321955797092629707285151984523863022935715390900814int * 15150724258959234573370506321955797092629707285151984523863022935715390900814int, m, 10487111592970329787773886820311141371191147271394116677184915023672006942094int, 18896893446100290878151793868275771821209477214194242054614035313699139069794int);
    assert(mod_pow(3, 91346378555180817243577604601451150189345186118nat, 21888242871839275222246405745257275088696311157297823662689037894645226208583nat) == 18896893446100290878151793868275771821209477214194242054614035313699139069794nat);
    lemma_fundamental_div_mod_converse(18896893446100290878151793868275771821209477214194242054614035313699139069794int * 18896893446100290878151793868275771821209477214194242054614035313699139069794int, m, 16314355793844567141060788635416132698225186900475996766040774391111468407999int, 9201058434727602620526273451980371620346763957063026548473859627441883547019int);
    assert(mod_pow(3, 182692757110361634487155209202902300378690372236nat, 21888242871839275222246405745257275088696311157297823662689037894645226208583nat) == 9201058434727602620526273451980371620346763957063026548473859627441883547019nat);
    lemma_fundamental_div_mod_converse(9201058434727602620526273451980371620346763957063026548473859627441883547019int * 9201058434727602620526273451980371620346763957063026548473859627441883547019int, m, 3867805963912808188747735757384457720912818703132995948266615670304534951309int, 10911362648600257499349468007124943916101395859724780714225542081978200901214int);
    assert(mod_pow(3, 365385514220723268974310418405804600757380744472nat, 21888242871839275222246405745257275088696311157297823662689037894645226208583nat) == 10911362648600257499349468007124943916101395859724780714225542081978200901214nat);
    lemma_fundamental_div_mod_converse(10911362648600257499349468007124943916101395859724780714225542081978200901214int * 10911362648600257499349468007124943916101395859724780714225542081978200901214int, m, 5439350958703263099167288419859032051834944982900763783582929178396173936904int, 5416356730883007370641660460184983447238616174666726612651393605913201426764int);
    assert(mod_pow(3, 730771028441446537948620836811609201514761488944nat, 21888242871839275222246405745257275088696311157297823662689037894645226208583nat) == 5416356730883007370641660460184983447238616174666726612651393605913201426764nat);
    lemma_fundamental_div_mod_converse(5416356730883007370641660460184983447238616174666726612651393605913201426764int * 5416356730883007370641660460184983447238616174666726612651393605913201426764int, m, 1340304948549598629699749200701000966696992092599948876814109666024018355388int, 18893240082579169890862685665655166365209889374957004154486925750406945616492int);
    lemma_fundamental_div_mod_converse(18893240082579169890862685665655166365209889374957004154486925750406945616492int * 3, m, 2int, 12903234504058959228095245506450948918237045810275365138082701461930384432310int);
    assert(mod_pow(3, 1461542056882893075897241673623218403029522977889nat, 21888242871839275222246405745257275088696311157297823662689037894645226208583nat) == 12903234504058959228095245506450948918237045810275365138082701461930384432310nat);
    lemma_fundamental_div_mod_converse(12903234504058959228095245506450948918237045810275365138082701461930384432310int * 12903234504058959228095245506450948918237045810275365138082701461930384432310int, m, 7606524728439618371621050641072661942893501571104313066029380832266077490908int, 20149226454568623810303001762563149743937249142229367554893682248954477872736int);
    lemma_fundamental_div_mod_converse(20149226454568623810303001762563149743937249142229367554893682248954477872736int * 3, m, 2int, 16671193620027320986416193797174899054419125112092455339302970957572981201042int);
    assert(mod_pow(3, 2923084113765786151794483347246436806059045955779nat, 21888242871839275222246405745257275088696311157297823662689037894645226208583nat) == 16671193620027320986416193797174899054419125112092455339302970957572981201042nat);
    lemma_fundamental_div_mod_converse(16671193620027320986416193797174899054419125112092455339302970957572981201042int * 16671193620027320986416193797174899054419125112092455339302970957572981201042int, m, 12697624854757709682345656825263860290801038290114645804886720421574888290715int, 20047760384300803470691661985104364145472208734199620582307811305731889678919int);
    assert(mod_pow(3, 5846168227531572303588966694492873612118091911558nat, 21888242871839275222246405745257275088696311157297823662689037894645226208583nat) == 20047760384300803470691661985104364145472208734199620582307811305731889678919nat);
    lemma_fundamental_div_mod_converse(20047760384300803470691661985104364145472208734199620582307811305731889678919int * 20047760384300803470691661985104364145472208734199620582307811305731889678919int, m, 18362035672741411883804476645073330806986597521390212619623016231050404004331int, 14772563069636768566071308225744285240242906628869508981117646499264671635588int);
    assert(mod_pow(3, 11692336455063144607177933388985747224236183823116nat, 21888242871839275222246405745257275088696311157297823662689037894645226208583nat) == 14772563069636768566071308225744285240242906628869508981117646499264671635588nat);
    lemma_fundamental_div_mod_converse(14772563069636768566071308225744285240242906628869508981117646499264671635588int * 14772563069636768566071308225744285240242906628869508981117646499264671635588int, m, 9970129668433192687109594317838185196275115593277853790102663755410730540029int, 16913881663524445066345397229696285198462572491309147615492110325667283236837int);
    assert(mod_pow(3, 23384672910126289214355866777971494448472367646232nat, 21888242871839275222246405745257275088696311157297823662689037894645226208583nat) == 16913881663524445066345397229696285198462572491309147615492110325667283236837nat);
    lemma_fundamental_div_mod_converse(16913881663524445066345397229696285198462572491309147615492110325667283236837int * 16913881663524445066345397229696285198462572491309147615492110325667283236837int, m, 13070002676906020509300391776388324730390367693223569386426542712475111195868int, 7374418571783999816723883740160520881064554587906002409350087560419098029525int);
    lemma_fundamental_div_mod_converse(7374418571783999816723883740160520881064554587906002409350087560419098029525int * 3, m, 1int, 235012843512724227925245475224287554497352606420183565361224786612067879992int);
    assert(mod_pow(3, 46769345820252578428711733555942988896944735292465nat, 21888242871839275222246405745257275088696311157297823662689037894645226208583nat) == 235012843512724227925245475224287554497352606420183565361224786612067879992nat);
    lemma_fundamental_div_mod_converse(235012843512724227925245475224287554497352606420183565361224786612067879992int * 235012843512724227925245475224287554497352606420183565361224786612067879992int, m, 2523319799552970084398028705890314487768838017940552520805048978084613891int, 20541969054946802111844687613237044769896019729812248939523913509643928693611int);
    lemma_fundamental_div_mod_converse(20541969054946802111844687613237044769896019729812248939523913509643928693611int * 3, m, 2int, 17849421421161855891041251349196584132295436874841099493193664739641333663667int);
    assert(mod_pow(3, 93538691640505156857423467111885977793889470584931nat, 21888242871839275222246405745257275088696311157297823662689037894645226208583nat) == 17849421421161855891041251349196584132295436874841099493193664739641333663667nat);
    lemma_fundamental_div_mod_converse(17849421421161855891041251349196584132295436874841099493193664739641333663667int * 17849421421161855891041251349196584132295436874841099493193664739641333663667int, m, 14555843835236991061097460002684626048879526743674351748042401902821227020153int, 14314306079019648365019574659542647904510241877075339419111744731301553313690int);
    lemma_fundamental_div_mod_converse(14314306079019648365019574659542647904510241877075339419111744731301553313690int * 3, m, 1int, 21054675365219669872812318233370668624834414473928194594646196299259433732487int);
    assert(mod_pow(3, 187077383281010313714846934223771955587778941169863nat, 21888242871839275222246405745257275088696311157297823662689037894645226208583nat) == 21054675365219669872812318233370668624834414473928194594646196299259433732487nat);
    lemma_fundamental_div_mod_converse(21054675365219669872812318233370668624834414473928194594646196299259433732487int * 21054675365219669872812318233370668624834414473928194594646196299259433732487int, m, 20252852516778450253471410461083247157810482209452404403681216492053071471191int, 12628687533158206332969918582823409004004954962307237637473826047645437772816int);
    assert(mod_pow(3, 374154766562020627429693868447543911175557882339726nat, 21888242871839275222246405745257275088696311157297823662689037894645226208583nat) == 12628687533158206332969918582823409004004954962307237637473826047645437772816nat);
    lemma_fundamental_div_mod_converse(12628687533158206332969918582823409004004954962307237637473826047645437772816int * 12628687533158206332969918582823409004004954962307237637473826047645437772816int, m, 7286274633553718347547049156614450536473418358744547319012939993959263414626int, 2534248037212104293623182264724675051554745806398090320798301667162139634898int);
    assert(mod_pow(3, 748309533124041254859387736895087822351115764679452nat, 21888242871839275222246405745257275088696311157297823662689037894645226208583nat) == 2534248037212104293623182264724675051554745806398090320798301667162139634898nat);
    lemma_fundamental_div_mod_converse(2534248037212104293623182264724675051554745806398090320798301667162139634898int * 2534248037212104293623182264724675051554745806398090320798301667162139634898int, m, 293418395972582972490060566672839495687582744610667025287772884557873873701int, 8191639695146157049780497406395535934668282084399014472149477675249115294721int);
    lemma_fundamental_div_mod_converse(8191639695146157049780497406395535934668282084399014472149477675249115294721int * 3, m, 1int, 2686676213599195927095086473929332715308535095899219753759395131102119675580int);
    assert(mod_pow(3, 1496619066248082509718775473790175644702231529358905nat, 21888242871839275222246405745257275088696311157297823662689037894645226208583nat) == 2686676213599195927095086473929332715308535095899219753759395131102119675580nat);
    lemma_fundamental_div_mod_converse(2686676213599195927095086473929332715308535095899219753759395131102119675580int * 2686676213599195927095086473929332715308535095899219753759395131102119675580int, m, 329776543461442432020951062476024431940312987281703700808773011821054258015int, 3351898646511778942579369727671995566742998040000110465990730337617758793655int);
    lemma_fundamental_div_mod_converse(3351898646511778942579369727671995566742998040000110465990730337617758793655int * 3, m, 0int, 10055695939535336827738109183015986700228994120000331397972191012853276380965int);
    assert(mod_pow(3, 2993238132496165019437550947580351289404463058717811nat, 21888242871839275222246405745257275088696311157297823662689037894645226208583nat) == 10055695939535336827738109183015986700228994120000331397972191012853276380965nat);
    lemma_fundamental_div_mod_converse(10055695939535336827738109183015986700228994120000331397972191012853276380965int * 10055695939535336827738109183015986700228994120000331397972191012853276380965int, m, 4619695670431427768130825613183511820380551912405819625373225433868243295153int, 17848171331084566803405032449521646249748189963961100715807006792547003433026int);
    lemma_fundamental_div_mod_converse(17848171331084566803405032449521646249748189963961100715807006792547003433026int * 3, m, 2int, 9768028249575149965722285858050388571851947577287654822042944588350557881912int);
    assert(mod_pow(3, 5986476264992330038875101895160702578808926117435623nat, 21888242871839275222246405745257275088696311157297823662689037894645226208583nat) == 9768028249575149965722285858050388571851947577287654822042944588350557881912nat);
    lemma_fundamental_div_mod_converse(9768028249575149965722285858050388571851947577287654822042944588350557881912int * 9768028249575149965722285858050388571851947577287654822042944588350557881912int, m, 4359161054780477740041857352557232814577779288758759965885601937391030660436int, 1879932831048425412743219595449999110210483884288613708793195554800955053556int);
    lemma_fundamental_div_mod_converse(1879932831048425412743219595449999110210483884288613708793195554800955053556int * 3, m, 0int, 5639798493145276238229658786349997330631451652865841126379586664402865160668int);
    assert(mod_pow(3, 11972952529984660077750203790321405157617852234871247nat, 21888242871839275222246405745257275088696311157297823662689037894645226208583nat) == 5639798493145276238229658786349997330631451652865841126379586664402865160668nat);
    lemma_fundamental_div_mod_converse(5639798493145276238229658786349997330631451652865841126379586664402865160668int * 5639798493145276238229658786349997330631451652865841126379586664402865160668int, m, 1453169504264137846026041514297420129317889883943526029012231774541221551671int, 5250294490641268446908611343876450832979323365715923486608133879965896014031int);
    assert(mod_pow(3, 23945905059969320155500407580642810315235704469742494nat, 21888242871839275222246405745257275088696311157297823662689037894645226208583nat) == 5250294490641268446908611343876450832979323365715923486608133879965896014031nat);
    lemma_fundamental_div_mod_converse(5250294490641268446908611343876450832979323365715923486608133879965896014031int * 5250294490641268446908611343876450832979323365715923486608133879965896014031int, m, 1259378946033309982017009852435213837200972852011012805786777338043573512549int, 2317952634775546485742586086257508902631357590852313612750226262338706860894int);
    assert(mod_pow(3, 47891810119938640311000815161285620630471408939484988nat, 21888242871839275222246405745257275088696311157297823662689037894645226208583nat) == 2317952634775546485742586086257508902631357590852313612750226262338706860894nat);
    lemma_fundamental_div_mod_converse(2317952634775546485742586086257508902631357590852313612750226262338706860894int * 2317952634775546485742586086257508902631357590852313612750226262338706860894int, m, 245469883010824400716496655598376661703055556466284847551111157737945269472int, 9832020013169695303674122746215177165186713103710523250950073210488652201060int);
    lemma_fundamental_div_mod_converse(9832020013169695303674122746215177165186713103710523250950073210488652201060int * 3, m, 1int, 7607817167669810688775962493388256406863828153833746090161181736820730394597int);
    assert(mod_pow(3, 95783620239877280622001630322571241260942817878969977nat, 21888242871839275222246405745257275088696311157297823662689037894645226208583nat) == 7607817167669810688775962493388256406863828153833746090161181736820730394597nat);
    lemma_fundamental_div_mod_converse(7607817167669810688775962493388256406863828153833746090161181736820730394597int * 7607817167669810688775962493388256406863828153833746090161181736820730394597int, m, 2644290928037748039594810388742142503452676641694704033341913727079824277366int, 10089275749895624597003923575365149253373645121419210428279199516605364960031int);
    lemma_fundamental_div_mod_converse(10089275749895624597003923575365149253373645121419210428279199516605364960031int * 3, m, 1int, 8379584377847598568765364980838172671424624206959807622148560655170868671510int);
    assert(mod_pow(3, 191567240479754561244003260645142482521885635757939955nat, 21888242871839275222246405745257275088696311157297823662689037894645226208583nat) == 8379584377847598568765364980838172671424624206959807622148560655170868671510nat);
    lemma_fundamental_div_mod_converse(8379584377847598568765364980838172671424624206959807622148560655170868671510int * 8379584377847598568765364980838172671424624206959807622148560655170868671510int, m, 3207997771068552418979896053613201614204665044226153224243168251982843764148int, 349727360325448806977746152796637999980790365840134763990502787933980397816int);
    assert(mod_pow(3, 383134480959509122488006521290284965043771271515879910nat, 21888242871839275222246405745257275088696311157297823662689037894645226208583nat) == 349727360325448806977746152796637999980790365840134763990502787933980397816nat);
    lemma_fundamental_div_mod_converse(349727360325448806977746152796637999980790365840134763990502787933980397816int * 349727360325448806977746152796637999980790365840134763990502787933980397816int, m, 5587896080848294491666445082760775924534501026919094553385540241141031519int, 1177244523279233410942437503116902618343507750147190259266825581735546242279int);
    lemma_fundamental_div_mod_converse(1177244523279233410942437503116902618343507750147190259266825581735546242279int * 3, m, 0int, 3531733569837700232827312509350707855030523250441570777800476745206638726837int);
    assert(mod_pow(3, 766268961919018244976013042580569930087542543031759821nat, 21888242871839275222246405745257275088696311157297823662689037894645226208583nat) == 3531733569837700232827312509350707855030523250441570777800476745206638726837nat);
    lemma_fundamental_div_mod_converse(3531733569837700232827312509350707855030523250441570777800476745206638726837int * 3531733569837700232827312509350707855030523250441570777800476745206638726837int, m, 569855793420772847385717013426944769940680460189806160780426117787358140587int, 13326662137079343142371493693786462394143442269045681692642100721905603966348int);
    lemma_fundamental_div_mod_converse(13326662137079343142371493693786462394143442269045681692642100721905603966348int * 3, m, 1int, 18091743539398754204868075336102112093734015649839221415237264271071585690461int);
    assert(mod_pow(3, 1532537923838036489952026085161139860175085086063519643nat, 21888242871839275222246405745257275088696311157297823662689037894645226208583nat) == 18091743539398754204868075336102112093734015649839221415237264271071585690461nat);
    lemma_fundamental_div_mod_converse(18091743539398754204868075336102112093734015649839221415237264271071585690461int * 18091743539398754204868075336102112093734015649839221415237264271071585690461int, m, 14953744172698523744206115045658019194935963617560691149963086935599050860596int, 8600766226585634605195423467847434620030491559235019162295245481037754697053int);
    assert(mod_pow(3, 3065075847676072979904052170322279720350170172127039286nat, 21888242871839275222246405745257275088696311157297823662689037894645226208583nat) == 8600766226585634605195423467847434620030491559235019162295245481037754697053nat);
    lemma_fundamental_div_mod_converse(8600766226585634605195423467847434620030491559235019162295245481037754697053int * 8600766226585634605195423467847434620030491559235019162295245481037754697053int, m, 3379585109572576146635040922773886187019690512139697320966885706539447590250int, 7550530871459973900484544777562397112872787592495440423492080651320589769059int);
    lemma_fundamental_div_mod_converse(7550530871459973900484544777562397112872787592495440423492080651320589769059int * 3, m, 1int, 763349742540646479207228587429916249922051620188497607787204059316543098594int);
    assert(mod_pow(3, 6130151695352145959808104340644559440700340344254078573nat, 21888242871839275222246405745257275088696311157297823662689037894645226208583nat) == 763349742540646479207228587429916249922051620188497607787204059316543098594nat);
    lemma_fundamental_div_mod_converse(763349742540646479207228587429916249922051620188497607787204059316543098594int * 763349742540646479207228587429916249922051620188497607787204059316543098594int, m, 26621727145880604074801574422400539029832753222873554175827346708784602499int, 5531068596013621876479200593872741245622317493529402931811709763052287727919int);
    lemma_fundamental_div_mod_converse(5531068596013621876479200593872741245622317493529402931811709763052287727919int * 3, m, 0int, 16593205788040865629437601781618223736866952480588208795435129289156863183757int);
    assert(mod_pow(3, 12260303390704291919616208681289118881400680688508157147nat, 21888242871839275222246405745257275088696311157297823662689037894645226208583nat) == 16593205788040865629437601781618223736866952480588208795435129289156863183757nat);
    lemma_fundamental_div_mod_converse(16593205788040865629437601781618223736866952480588208795435129289156863183757int * 16593205788040865629437601781618223736866952480588208795435129289156863183757int, m, 12579103765268867864508702240369009384833663499908549239355133289112721152419int, 7327940869619279128925549101979015313828415859403664028673349088964519622772int);
    assert(mod_pow(3, 24520606781408583839232417362578237762801361377016314294nat, 21888242871839275222246405745257275088696311157297823662689037894645226208583nat) == 7327940869619279128925549101979015313828415859403664028673349088964519622772nat);
    lemma_fundamental_div_mod_converse(7327940869619279128925549101979015313828415859403664028673349088964519622772int * 7327940869619279128925549101979015313828415859403664028673349088964519622772int, m, 2453313301714302408481881590591341549687313618310033456648115839903553380939int, 12467593662199181191019697603446055650357394328855410577213895745619110564547int);
    assert(mod_pow(3, 49041213562817167678464834725156475525602722754032628588nat, 21888242871839275222246405745257275088696311157297823662689037894645226208583nat) == 12467593662199181191019697603446055650357394328855410577213895745619110564547nat);
    lemma_fundamental_div_mod_converse(12467593662199181191019697603446055650357394328855410577213895745619110564547int * 12467593662199181191019697603446055650357394328855410577213895745619110564547int, m, 7101570127664041612430972779346367653389939871754363645912837899224040308135int, 1263525416855557250174870624979036221718102535565123242950562768991951592504int);
    assert(mod_pow(3, 98082427125634335356929669450312951051205445508065257176nat, 21888242871839275222246405745257275088696311157297823662689037894645226208583nat) == 1263525416855557250174870624979036221718102535565123242950562768991951592504nat);
    lemma_fundamental_div_mod_converse(1263525416855557250174870624979036221718102535565123242950562768991951592504int * 1263525416855557250174870624979036221718102535565123242950562768991951592504int, m, 72938540036670182843861246531653768609485118724447296409178873117056370495int, 5238007667630428657542116429805290238387565987074419708447301401245872031431int);
    lemma_fundamental_div_mod_converse(5238007667630428657542116429805290238387565987074419708447301401245872031431int * 3, m, 0int, 15714023002891285972626349289415870715162697961223259125341904203737616094293int);
    assert(mod_pow(3, 196164854251268670713859338900625902102410891016130514353nat, 21888242871839275222246405745257275088696311157297823662689037894645226208583nat) == 15714023002891285972626349289415870715162697961223259125341904203737616094293nat);
    lemma_fundamental_div_mod_converse(15714023002891285972626349289415870715162697961223259125341904203737616094293int * 15714023002891285972626349289415870715162697961223259125341904203737616094293int, m, 11281422651476949159083608030473187731068841690770995915064066233081401201092int, 2088720252373020578220022880583654255603253331890838284710083076366347797213int);
    lemma_fundamental_div_mod_converse(2088720252373020578220022880583654255603253331890838284710083076366347797213int * 3, m, 0int, 6266160757119061734660068641750962766809759995672514854130249229099043391639int);
    assert(mod_pow(3, 392329708502537341427718677801251804204821782032261028707nat, 21888242871839275222246405745257275088696311157297823662689037894645226208583nat) == 6266160757119061734660068641750962766809759995672514854130249229099043391639nat);
    lemma_fundamental_div_mod_converse(6266160757119061734660068641750962766809759995672514854130249229099043391639int * 6266160757119061734660068641750962766809759995672514854130249229099043391639int, m, 1793874952135867964101987981736829325630697880073885299068018508803934906567int, 2586500964482564691695113854090135704117588037054702064814410315602576641760int);
    lemma_fundamental_div_mod_converse(2586500964482564691695113854090135704117588037054702064814410315602576641760int * 3, m, 0int, 7759502893447694075085341562270407112352764111164106194443230946807729925280int);
    assert(mod_pow(3, 784659417005074682855437355602503608409643564064522057415nat, 21888242871839275222246405745257275088696311157297823662689037894645226208583nat) == 7759502893447694075085341562270407112352764111164106194443230946807729925280nat);
    lemma_fundamental_div_mod_converse(7759502893447694075085341562270407112352764111164106194443230946807729925280int * 7759502893447694075085341562270407112352764111164106194443230946807729925280int, m, 2750786598356292944348326256094865704369367953567666535165319441009468177408int, 21816973913086711017892055835471161082716693385582361931328284886679326785536int);
    assert(mod_pow(3, 1569318834010149365710874711205007216819287128129044114830nat, 21888242871839275222246405745257275088696311157297823662689037894645226208583nat) == 21816973913086711017892055835471161082716693385582361931328284886679326785536nat);
    lemma_fundamental_div_mod_converse(21816973913086711017892055835471161082716693385582361931328284886679326785536int * 21816973913086711017892055835471161082716693385582361931328284886679326785536int, m, 21745937008798793197730727459640631241216838531351165711939127840805999068820int, 19257356145528519904931658739862672448140139669465415789661460242517447125236int);
    lemma_fundamental_div_mod_converse(19257356145528519904931658739862672448140139669465415789661460242517447125236int * 3, m, 2int, 13995582692907009270302164729073467167027796693800600043606304938261888958542int);
    assert(mod_pow(3, 3138637668020298731421749422410014433638574256258088229661nat, 21888242871839275222246405745257275088696311157297823662689037894645226208583nat) == 13995582692907009270302164729073467167027796693800600043606304938261888958542nat);
    lemma_fundamental_div_mod_converse(13995582692907009270302164729073467167027796693800600043606304938261888958542int * 13995582692907009270302164729073467167027796693800600043606304938261888958542int, m, 8948929160778206847611337782529030345505737586199494895113472361648505733738int, 16841690660279657449764574790731870828787200455583923175788949339107146492510int);
    assert(mod_pow(3, 6277275336040597462843498844820028867277148512516176459322nat, 21888242871839275222246405745257275088696311157297823662689037894645226208583nat) == 16841690660279657449764574790731870828787200455583923175788949339107146492510nat);
    lemma_fundamental_div_mod_converse(16841690660279657449764574790731870828787200455583923175788949339107146492510int * 16841690660279657449764574790731870828787200455583923175788949339107146492510int, m, 12958671281077414375334704444192416567413109364343366565524276375245969135464int, 6323372499573719402627315287599089770354305547015128893636140492320439612588int);
    lemma_fundamental_div_mod_converse(6323372499573719402627315287599089770354305547015128893636140492320439612588int * 3, m, 0int, 18970117498721158207881945862797269311062916641045386680908421476961318837764int);
    assert(mod_pow(3, 12554550672081194925686997689640057734554297025032352918645nat, 21888242871839275222246405745257275088696311157297823662689037894645226208583nat) == 18970117498721158207881945862797269311062916641045386680908421476961318837764nat);
    lemma_fundamental_div_mod_converse(18970117498721158207881945862797269311062916641045386680908421476961318837764int * 18970117498721158207881945862797269311062916641045386680908421476961318837764int, m, 16441034578352478978720104866743857780182749458335390367113667546122441694796int, 14131106976560937874034064974027817058028419711718744723945809720227830885628int);
    lemma_fundamental_div_mod_converse(14131106976560937874034064974027817058028419711718744723945809720227830885628int * 3, m, 1int, 20505078057843538399855789176826176085388947977858410509148391266038266448301int);
    assert(mod_pow(3, 25109101344162389851373995379280115469108594050064705837291nat, 21888242871839275222246405745257275088696311157297823662689037894645226208583nat) == 20505078057843538399855789176826176085388947977858410509148391266038266448301nat);
    lemma_fundamental_div_mod_converse(20505078057843538399855789176826176085388947977858410509148391266038266448301int * 20505078057843538399855789176826176085388947977858410509148391266038266448301int, m, 19209318382482171049612872089814572486283459840997265192557973591145309707595int, 1630806376387810405404948272476240858594382046356670407738431012746896498716int);
    lemma_fundamental_div_mod_converse(1630806376387810405404948272476240858594382046356670407738431012746896498716int * 3, m, 0int, 4892419129163431216214844817428722575783146139070011223215293038240689496148int);
    assert(mod_pow(3, 50218202688324779702747990758560230938217188100129411674583nat, 21888242871839275222246405745257275088696311157297823662689037894645226208583nat) == 4892419129163431216214844817428722575783146139070011223215293038240689496148nat);
    lemma_fundamental_div_mod_converse(4892419129163431216214844817428722575783146139070011223215293038240689496148int * 4892419129163431216214844817428722575783146139070011223215293038240689496148int, m, 1093544377936306112416235553920981588656757305891903188739546412098691864687int, 19189345798307493941747148025320346602221352010122551200252587759998632829383int);
    lemma_fundamental_div_mod_converse(19189345798307493941747148025320346602221352010122551200252587759998632829383int * 3, m, 2int, 13791551651243931380748632585446489629271433715772006275379687490705446070983int);
    assert(mod_pow(3, 100436405376649559405495981517120461876434376200258823349167nat, 21888242871839275222246405745257275088696311157297823662689037894645226208583nat) == 13791551651243931380748632585446489629271433715772006275379687490705446070983nat);
    lemma_fundamental_div_mod_converse(13791551651243931380748632585446489629271433715772006275379687490705446070983int * 13791551651243931380748632585446489629271433715772006275379687490705446070983int, m, 8689911660000968870604395597134078555795941001576628406742344961561301959540int, 10153644918967594318402910787009692460053341213832709905041820158149207854469int);
    lemma_fundamental_div_mod_converse(10153644918967594318402910787009692460053341213832709905041820158149207854469int * 3, m, 1int, 8572691885063507732962326615771802291463712484200306052436422579802397354824int);
    assert(mod_pow(3, 200872810753299118810991963034240923752868752400517646698335nat, 21888242871839275222246405745257275088696311157297823662689037894645226208583nat) == 8572691885063507732962326615771802291463712484200306052436422579802397354824nat);
    lemma_fundamental_div_mod_converse(8572691885063507732962326615771802291463712484200306052436422579802397354824int * 8572691885063507732962326615771802291463712484200306052436422579802397354824int, m, 3357558054638775320837567936256156227547935640341857845542083080782365614428int, 16872764651055287839054568126406192690951842816845912065294847825464473835452int);
    lemma_fundamental_div_mod_converse(16872764651055287839054568126406192690951842816845912065294847825464473835452int * 3, m, 2int, 6841808209487313072670892888704027895462906135942088870506467687102969089190int);
    assert(mod_pow(3, 401745621506598237621983926068481847505737504801035293396671nat, 21888242871839275222246405745257275088696311157297823662689037894645226208583nat) == 6841808209487313072670892888704027895462906135942088870506467687102969089190nat);
    lemma_fundamental_div_mod_converse(6841808209487313072670892888704027895462906135942088870506467687102969089190int * 6841808209487313072670892888704027895462906135942088870506467687102969089190int, m, 2138606550077745313571215276072257707236177260009233004208881948866469734535int, 16396272282840224441213241046050323265717899771826290970438829748681626342195int);
    lemma_fundamental_div_mod_converse(16396272282840224441213241046050323265717899771826290970438829748681626342195int * 3, m, 2int, 5412331104842122879146911647636419619761077000883225585938413456754426609419int);
    assert(mod_pow(3, 803491243013196475243967852136963695011475009602070586793343nat, 21888242871839275222246405745257275088696311157297823662689037894645226208583nat) == 5412331104842122879146911647636419619761077000883225585938413456754426609419nat);
    lemma_fundamental_div_mod_converse(5412331104842122879146911647636419619761077000883225585938413456754426609419int * 5412331104842122879146911647636419619761077000883225585938413456754426609419int, m, 1338313365762650088314488041538081689164374734770752870913722693049808065510int, 2820909348821685985789746696519977805179512472621674159651013902577391245231int);
    lemma_fundamental_div_mod_converse(2820909348821685985789746696519977805179512472621674159651013902577391245231int * 3, m, 0int, 8462728046465057957369240089559933415538537417865022478953041707732173735693int);
    assert(mod_pow(3, 1606982486026392950487935704273927390022950019204141173586687nat, 21888242871839275222246405745257275088696311157297823662689037894645226208583nat) == 8462728046465057957369240089559933415538537417865022478953041707732173735693nat);
    lemma_fundamental_div_mod_converse(8462728046465057957369240089559933415538537417865022478953041707732173735693int * 8462728046465057957369240089559933415538537417865022478953041707732173735693int, m, 3271974201299066409601919478816449339741997239793403442085327297644423364200int, 9479179414085081145919168236128595796925510765963990268418046184575247261649int);
    assert(mod_pow(3, 3213964972052785900975871408547854780045900038408282347173374nat, 21888242871839275222246405745257275088696311157297823662689037894645226208583nat) == 9479179414085081145919168236128595796925510765963990268418046184575247261649nat);
    lemma_fundamental_div_mod_converse(9479179414085081145919168236128595796925510765963990268418046184575247261649int * 9479179414085081145919168236128595796925510765963990268418046184575247261649int, m, 4105164717448324555336834468959121999963450362176767031189162370588142290949int, 3855242882402903493890803816059760592808280557235078352543743254330119183934int);
    lemma_fundamental_div_mod_converse(3855242882402903493890803816059760592808280557235078352543743254330119183934int * 3, m, 0int, 11565728647208710481672411448179281778424841671705235057631229762990357551802int);
    assert(mod_pow(3, 6427929944105571801951742817095709560091800076816564694346749nat, 21888242871839275222246405745257275088696311157297823662689037894645226208583nat) == 11565728647208710481672411448179281778424841671705235057631229762990357551802nat);
    lemma_fundamental_div_mod_converse(11565728647208710481672411448179281778424841671705235057631229762990357551802int * 11565728647208710481672411448179281778424841671705235057631229762990357551802int, m, 6111321037695696349098132439124555074998728131301128372355726224311293819991int, 17676199329274791317807919529171509280760117140221792780830691885139292264451int);
    assert(mod_pow(3, 12855859888211143603903485634191419120183600153633129388693498nat, 21888242871839275222246405745257275088696311157297823662689037894645226208583nat) == 17676199329274791317807919529171509280760117140221792780830691885139292264451nat);
    lemma_fundamental_div_mod_converse(17676199329274791317807919529171509280760117140221792780830691885139292264451int * 17676199329274791317807919529171509280760117140221792780830691885139292264451int, m, 14274696445836699863795964075000644856344602910294666522017547634153089292186int, 14722732877048730151772903364459596379628192423365083630850232728059450298963int);
    assert(mod_pow(3, 25711719776422287207806971268382838240367200307266258777386996nat, 21888242871839275222246405745257275088696311157297823662689037894645226208583nat) == 14722732877048730151772903364459596379628192423365083630850232728059450298963nat);
    lemma_fundamental_div_mod_converse(14722732877048730151772903364459596379628192423365083630850232728059450298963int * 14722732877048730151772903364459596379628192423365083630850232728059450298963int, m, 9902981460782615608698042644046025220252633693554606613176658180369033314432int, 7890907356330239866084952221143460179944105679889520029240248715012622705513int);
    lemma_fundamental_div_mod_converse(7890907356330239866084952221143460179944105679889520029240248715012622705513int * 3, m, 1int, 1784479197151444376008450918173105451136005882370736425031708250392641907956int);
    assert(mod_pow(3, 51423439552844574415613942536765676480734400614532517554773993nat, 21888242871839275222246405745257275088696311157297823662689037894645226208583nat) == 1784479197151444376008450918173105451136005882370736425031708250392641907956nat);
    lemma_fundamental_div_mod_converse(1784479197151444376008450918173105451136005882370736425031708250392641907956int * 1784479197151444376008450918173105451136005882370736425031708250392641907956int, m, 145482943684034529009448741511305010699131948402623614486053894968022068848int, 7982453673986933433310617506779787192555293367324874490293834261861141575552int);
    assert(mod_pow(3, 102846879105689148831227885073531352961468801229065035109547986nat, 21888242871839275222246405745257275088696311157297823662689037894645226208583nat) == 7982453673986933433310617506779787192555293367324874490293834261861141575552nat);
    lemma_fundamental_div_mod_converse(7982453673986933433310617506779787192555293367324874490293834261861141575552int * 7982453673986933433310617506779787192555293367324874490293834261861141575552int, m, 2911132110075728458448868287855408779262559910042889093001252149620172045964int, 3662355845206374123145609926890081653056777880938204031251974718667196795692int);
    lemma_fundamental_div_mod_converse(3662355845206374123145609926890081653056777880938204031251974718667196795692int * 3, m, 0int, 10987067535619122369436829780670244959170333642814612093755924156001590387076int);
    assert(mod_pow(3, 205693758211378297662455770147062705922937602458130070219095973nat, 21888242871839275222246405745257275088696311157297823662689037894645226208583nat) == 10987067535619122369436829780670244959170333642814612093755924156001590387076nat);
    lemma_fundamental_div_mod_converse(10987067535619122369436829780670244959170333642814612093755924156001590387076int * 10987067535619122369436829780670244959170333642814612093755924156001590387076int, m, 5515091080589416194799668789081221048248429073910796133771338845492739007309int, 14398670163509339600883821417453090524283626816982508357367349655114312296629int);
    assert(mod_pow(3, 411387516422756595324911540294125411845875204916260140438191946nat, 21888242871839275222246405745257275088696311157297823662689037894645226208583nat) == 14398670163509339600883821417453090524283626816982508357367349655114312296629nat);
    lemma_fundamental_div_mod_converse(14398670163509339600883821417453090524283626816982508357367349655114312296629int * 14398670163509339600883821417453090524283626816982508357367349655114312296629int, m, 9471829405925847681429511558655163654574086197403713593065955688523393882893int, 17827381517007377894387293091544772742081812483876635050402859050011391293022int);
    assert(mod_pow(3, 822775032845513190649823080588250823691750409832520280876383892nat, 21888242871839275222246405745257275088696311157297823662689037894645226208583nat) == 17827381517007377894387293091544772742081812483876635050402859050011391293022nat);
    lemma_fundamental_div_mod_converse(17827381517007377894387293091544772742081812483876635050402859050011391293022int * 17827381517007377894387293091544772742081812483876635050402859050011391293022int, m, 14519919831565271259705583651640182814834506900626418898890299116540019890482int, 10591704450616979978965007280931046376539759767182531026619435725605317485478int);
    assert(mod_pow(3, 1645550065691026381299646161176501647383500819665040561752767784nat, 21888242871839275222246405745257275088696311157297823662689037894645226208583nat) == 10591704450616979978965007280931046376539759767182531026619435725605317485478nat);
    lemma_fundamental_div_mod_converse(10591704450616979978965007280931046376539759767182531026619435725605317485478int * 10591704450616979978965007280931046376539759767182531026619435725605317485478int, m, 5125317908161198662873441528867667313306099759062579326882400642551758571945int, 16098028640956118462321694709044348194835858241596606064588575780165958884549int);
    assert(mod_pow(3, 3291100131382052762599292322353003294767001639330081123505535568nat, 21888242871839275222246405745257275088696311157297823662689037894645226208583nat) == 16098028640956118462321694709044348194835858241596606064588575780165958884549nat);
    lemma_fundamental_div_mod_converse(16098028640956118462321694709044348194835858241596606064588575780165958884549int * 16098028640956118462321694709044348194835858241596606064588575780165958884549int, m, 11839530822204703483171156909264573540947221676802865765749200432427041922073int, 15862705124488252165107218168109959079172960602024388702721215397589581180842int);
    assert(mod_pow(3, 6582200262764105525198584644706006589534003278660162247011071136nat, 21888242871839275222246405745257275088696311157297823662689037894645226208583nat) == 15862705124488252165107218168109959079172960602024388702721215397589581180842nat);
    lemma_fundamental_div_mod_converse(15862705124488252165107218168109959079172960602024388702721215397589581180842int * 15862705124488252165107218168109959079172960602024388702721215397589581180842int, m, 11495916567619925222389669217050558388021750238869078405392932686779112861493int, 2252868370085141209117583080429345670085057805797919853720719991666701034545int);
    assert(mod_pow(3, 13164400525528211050397169289412013179068006557320324494022142272nat, 21888242871839275222246405745257275088696311157297823662689037894645226208583nat) == 2252868370085141209117583080429345670085057805797919853720719991666701034545nat);
    lemma_fundamental_div_mod_converse(2252868370085141209117583080429345670085057805797919853720719991666701034545int * 2252868370085141209117583080429345670085057805797919853720719991666701034545int, m, 231878635605782281096296495609021069216813440011577566746372059111956907399int, 4585083000763017631318021980242566607986117238148616746361756664638493351408int);
    lemma_fundamental_div_mod_converse(4585083000763017631318021980242566607986117238148616746361756664638493351408int * 3, m, 0int, 13755249002289052893954065940727699823958351714445850239085269993915480054224int);
    assert(mod_pow(3, 26328801051056422100794338578824026358136013114640648988044284545nat, 21888242871839275222246405745257275088696311157297823662689037894645226208583nat) == 13755249002289052893954065940727699823958351714445850239085269993915480054224nat);
    lemma_fundamental_div_mod_converse(13755249002289052893954065940727699823958351714445850239085269993915480054224int * 13755249002289052893954065940727699823958351714445850239085269993915480054224int, m, 8644224034922492523643928145560755847153511396676030202959506342575376556432int, 7167959463613902203935597843461727267494704616886568558615128937816077986320int);
    lemma_fundamental_div_mod_converse(7167959463613902203935597843461727267494704616886568558615128937816077986320int * 3, m, 0int, 21503878390841706611806793530385181802484113850659705675845386813448233958960int);
    assert(mod_pow(3, 52657602102112844201588677157648052716272026229281297976088569091nat, 21888242871839275222246405745257275088696311157297823662689037894645226208583nat) == 21503878390841706611806793530385181802484113850659705675845386813448233958960nat);
    lemma_fundamental_div_mod_converse(21503878390841706611806793530385181802484113850659705675845386813448233958960int * 21503878390841706611806793530385181802484113850659705675845386813448233958960int, m, 21126263471931764635012911050708964268138499585056999961964107407114889454031int, 12778160579495283952822676070622943414165944677003962095191059099361968133527int);
    lemma_fundamental_div_mod_converse(12778160579495283952822676070622943414165944677003962095191059099361968133527int * 3, m, 1int, 16446238866646576636221622466611555153801522873714062622884139403440678191998int);
    assert(mod_pow(3, 105315204204225688403177354315296105432544052458562595952177138183nat, 21888242871839275222246405745257275088696311157297823662689037894645226208583nat) == 16446238866646576636221622466611555153801522873714062622884139403440678191998nat);
    lemma_fundamental_div_mod_converse(16446238866646576636221622466611555153801522873714062622884139403440678191998int * 16446238866646576636221622466611555153801522873714062622884139403440678191998int, m, 12357262958132923256972798439572627518023208546550780378577313966037940938644int, 8244789531329341678732657937158073826650538217467485252339029385277802050552int);
    assert(mod_pow(3, 210630408408451376806354708630592210865088104917125191904354276366nat, 21888242871839275222246405745257275088696311157297823662689037894645226208583nat) == 8244789531329341678732657937158073826650538217467485252339029385277802050552nat);
    lemma_fundamental_div_mod_converse(8244789531329341678732657937158073826650538217467485252339029385277802050552int * 8244789531329341678732657937158073826650538217467485252339029385277802050552int, m, 3105619524323462359780075842723446601652709594777495733403606195625874628169int, 18727103559299496407124549357622525731097899024628887703048399178117202130177int);
    assert(mod_pow(3, 421260816816902753612709417261184421730176209834250383808708552732nat, 21888242871839275222246405745257275088696311157297823662689037894645226208583nat) == 18727103559299496407124549357622525731097899024628887703048399178117202130177nat);
    lemma_fundamental_div_mod_converse(18727103559299496407124549357622525731097899024628887703048399178117202130177int * 18727103559299496407124549357622525731097899024628887703048399178117202130177int, m, 16022501658729907753683727504111298093519315305413167215812175182608486471449int, 1440730989379995733468903136013877414467123740561193219178433870940305804562int);
    lemma_fundamental_div_mod_converse(1440730989379995733468903136013877414467123740561193219178433870940305804562int * 3, m, 0int, 4322192968139987200406709408041632243401371221683579657535301612820917413686int);
    assert(mod_pow(3, 842521633633805507225418834522368843460352419668500767617417105465nat, 21888242871839275222246405745257275088696311157297823662689037894645226208583nat) == 4322192968139987200406709408041632243401371221683579657535301612820917413686nat);
    lemma_fundamental_div_mod_converse(4322192968139987200406709408041632243401371221683579657535301612820917413686int * 4322192968139987200406709408041632243401371221683579657535301612820917413686int, m, 853487973576608670376591874721846170647684597468099342052110177594205394598int, 17420116977169831129086893951554629319439308771992791530937884077878290671962int);
    lemma_fundamental_div_mod_converse(17420116977169831129086893951554629319439308771992791530937884077878290671962int * 3, m, 2int, 8483865187830942942767870364149337780925304001382727267435576444344419598720int);
    assert(mod_pow(3, 1685043267267611014450837669044737686920704839337001535234834210931nat, 21888242871839275222246405745257275088696311157297823662689037894645226208583nat) == 8483865187830942942767870364149337780925304001382727267435576444344419598720nat);
    lemma_fundamental_div_mod_converse(8483865187830942942767870364149337780925304001382727267435576444344419598720int * 8483865187830942942767870364149337780925304001382727267435576444344419598720int, m, 3288339267191327534930120767027679462934799780557552414194023896652042195061int, 8466711956701138865495264840123645203221218686321249868088309085099867229837int);
    lemma_fundamental_div_mod_converse(8466711956701138865495264840123645203221218686321249868088309085099867229837int * 3, m, 1int, 3511892998264141374239388775113660520967344901665925941575889360654375480928int);
    assert(mod_pow(3, 3370086534535222028901675338089475373841409678674003070469668421863nat, 21888242871839275222246405745257275088696311157297823662689037894645226208583nat) == 3511892998264141374239388775113660520967344901665925941575889360654375480928nat);
    lemma_fundamental_div_mod_converse(3511892998264141374239388775113660520967344901665925941575889360654375480928int * 3511892998264141374239388775113660520967344901665925941575889360654375480928int, m, 563471106542063056188210300952357233977727821259148700360043342002723930317int, 9544016025468781685729343454609363627536158950674168097845134184869092430373int);
    lemma_fundamental_div_mod_converse(9544016025468781685729343454609363627536158950674168097845134184869092430373int * 3, m, 1int, 6743805204567069834941624618570815793912165694724680630846364659962051082536int);
    assert(mod_pow(3, 6740173069070444057803350676178950747682819357348006140939336843727nat, 21888242871839275222246405745257275088696311157297823662689037894645226208583nat) == 6743805204567069834941624618570815793912165694724680630846364659962051082536nat);
    lemma_fundamental_div_mod_converse(6743805204567069834941624618570815793912165694724680630846364659962051082536int * 6743805204567069834941624618570815793912165694724680630846364659962051082536int, m, 2077777960681240060807694928716190630108732890875977466083440387864934400135int, 809772847443590970513119924577912244702348892281044437906974873571990832591int);
    assert(mod_pow(3, 13480346138140888115606701352357901495365638714696012281878673687454nat, 21888242871839275222246405745257275088696311157297823662689037894645226208583nat) == 809772847443590970513119924577912244702348892281044437906974873571990832591nat);
    lemma_fundamental_div_mod_converse(809772847443590970513119924577912244702348892281044437906974873571990832591int * 809772847443590970513119924577912244702348892281044437906974873571990832591int, m, 29958186607137181544743877278116245671685049461972122534271186423734439986int, 13328998087411235363526419421675343435711528451056433381396299373937856173443int);
    lemma_fundamental_div_mod_converse(13328998087411235363526419421675343435711528451056433381396299373937856173443int * 3, m, 1int, 18098751390394430868332852519768755218438274195871476481499860227168342311746int);
    assert(mod_pow(3, 26960692276281776231213402704715802990731277429392024563757347374909nat, 21888242871839275222246405745257275088696311157297823662689037894645226208583nat) == 18098751390394430868332852519768755218438274195871476481499860227168342311746nat);
    lemma_fundamental_div_mod_converse(18098751390394430868332852519768755218438274195871476481499860227168342311746int * 18098751390394430868332852519768755218438274195871476481499860227168342311746int, m, 14965331105346008153937095392864315618088547291701289474822344104450641677742int, 4037977894466302416077673003712391021526016837688049215215365469034689108930int);
    assert(mod_pow(3, 53921384552563552462426805409431605981462554858784049127514694749818nat, 21888242871839275222246405745257275088696311157297823662689037894645226208583nat) == 4037977894466302416077673003712391021526016837688049215215365469034689108930nat);
}

#[verifier::rlimit(100)]
pub proof fn lemma_pow_base_modulus_by_11465965001()
    ensures
        mod_pow(3, 1908975203563790751034266631218829680491566255156566185884264578582nat, 21888242871839275222246405745257275088696311157297823662689037894645226208583nat) == 5730636994510773491206367835236806183028292339446643256980404715002489681200nat,
{
    let m = 21888242871839275222246405745257275088696311157297823662689037894645226208583int;
    lemma_fundamental_div_mod_converse(1, m, 0, 1);
    assert(mod_pow(3, 0, 21888242871839275222246405745257275088696311157297823662689037894645226208583nat) == 1);
    lemma_fundamental_div_mod_converse(1int * 1int, m, 0int, 1int);
    lemma_fundamental_div_mod_converse(1int * 3, m, 0int, 3int);
    assert(mod_pow(3, 1, 21888242871839275222246405745257275088696311157297823662689037894645226208583nat) == 3);
    lemma_fundamental_div_mod_converse(3int * 3int, m, 0int, 9int);
    assert(mod_pow(3, 2, 21888242871839275222246405745257275088696311157297823662689037894645226208583nat) == 9);
    lemma_fundamental_div_mod_converse(9int * 9int, m, 0int, 81int);
    assert(mod_pow(3, 4, 21888242871839275222246405745257275088696311157297823662689037894645226208583nat) == 81);
    lemma_fundamental_div_mod_converse(81int * 81int, m, 0int, 6561int);
    lemma_fundamental_div_mod_converse(6561int * 3, m, 0int, 19683int);
    assert(mod_pow(3, 9, 21888242871839275222246405745257275088696311157297823662689037894645226208583nat) == 19683);
    lemma_fundamental_div_mod_converse(19683int * 19683int, m, 0int, 387420489int);
    assert(mod_pow(3, 18, 21888242871839275222246405745257275088696311157297823662689037894645226208583nat) == 387420489);
    lemma_fundamental_div_mod_converse(387420489int * 387420489int, m, 0int, 150094635296999121int);
    assert(mod_pow(3, 36, 21888242871839275222246405745257275088696311157297823662689037894645226208583nat) == 150094635296999121);
    lemma_fundamental_div_mod_converse(150094635296999121int * 150094635296999121int, m, 0int, 22528399544939174411840147874772641int);
    assert(mod_pow(3, 72, 21888242871839275222246405745257275088696311157297823662689037894645226208583nat) == 22528399544939174411840147874772641nat);
    lemma_fundamental_div_mod_converse(22528399544939174411840147874772641int * 22528399544939174411840147874772641int, m, 0int, 507528786056415600719754159741696356908742250191663887263627442114881int);
    lemma_fundamental_div_mod_converse(507528786056415600719754159741696356908742250191663887263627442114881int * 3, m, 0int, 1522586358169246802159262479225089070726226750574991661790882326344643int);
    assert(mod_pow(3, 145, 21888242871839275222246405745257275088696311157297823662689037894645226208583nat) == 1522586358169246802159262479225089070726226750574991661790882326344643nat);
    lemma_fundamental_div_mod_converse(1522586358169246802159262479225089070726226750574991661790882326344643int * 1522586358169246802159262479225089070726226750574991661790882326344643int, m, 105913902347351150894615967190482796212373060146626067885521624int, 2803790307995986719904135488659518201515029463854110631434731841945233898657int);
    assert(mod_pow(3, 290, 21888242871839275222246405745257275088696311157297823662689037894645226208583nat) == 2803790307995986719904135488659518201515029463854110631434731841945233898657nat);
    lemma_fundamental_div_mod_converse(2803790307995986719904135488659518201515029463854110631434731841945233898657int * 2803790307995986719904135488659518201515029463854110631434731841945233898657int, m, 359153548196701266324526795232421594771490020789765106595048668232648665391int, 2996881842886771048270085896794179050764628912975151695956537944181807152696int);
    assert(mod_pow(3, 580, 21888242871839275222246405745257275088696311157297823662689037894645226208583nat) == 2996881842886771048270085896794179050764628912975151695956537944181807152696nat);
    lemma_fundamental_div_mod_converse(2996881842886771048270085896794179050764628912975151695956537944181807152696int * 2996881842886771048270085896794179050764628912975151695956537944181807152696int, m, 410325343738736933712204215775889034935782681458801177459983761839520584293int, 19615591817379457427564071667135182346895088872271204372347931583669408481597int);
    assert(mod_pow(3, 1160, 21888242871839275222246405745257275088696311157297823662689037894645226208583nat) == 19615591817379457427564071667135182346895088872271204372347931583669408481597nat);
    lemma_fundamental_div_mod_converse(19615591817379457427564071667135182346895088872271204372347931583669408481597int * 19615591817379457427564071667135182346895088872271204372347931583669408481597int, m, 17578909581685917791695743319233824526185956888153462011153598357524728185864int, 9097618973085900535920283322475027848790237179189276606021264887336631599697int);
    assert(mod_pow(3, 2320, 21888242871839275222246405745257275088696311157297823662689037894645226208583nat) == 9097618973085900535920283322475027848790237179189276606021264887336631599697nat);
    lemma_fundamental_div_mod_converse(9097618973085900535920283322475027848790237179189276606021264887336631599697int * 9097618973085900535920283322475027848790237179189276606021264887336631599697int, m, 3781330071311368298631621489741141220406340623563618370582636922350358603534int, 17150359729485185790105899104819599234546797639039485803254740067883965559487int);
    assert(mod_pow(3, 4640, 21888242871839275222246405745257275088696311157297823662689037894645226208583nat) == 17150359729485185790105899104819599234546797639039485803254740067883965559487nat);
    lemma_fundamental_div_mod_converse(17150359729485185790105899104819599234546797639039485803254740067883965559487int * 17150359729485185790105899104819599234546797639039485803254740067883965559487int, m, 13438028834611105612304135242249066794215881503676037463996880527162581047817int, 7502098558691147845630664652162150960473624141760033075743347907750596889858int);
    assert(mod_pow(3, 9280, 21888242871839275222246405745257275088696311157297823662689037894645226208583nat) == 7502098558691147845630664652162150960473624141760033075743347907750596889858nat);
    lemma_fundamental_div_mod_converse(7502098558691147845630664652162150960473624141760033075743347907750596889858int * 7502098558691147845630664652162150960473624141760033075743347907750596889858int, m, 2571311142418187586735373504693214343304823976405471800747006515633357019025int, 18864689263220938726944764933377450401547996769585803058690945816570833968589int);
    lemma_fundamental_div_mod_converse(18864689263220938726944764933377450401547996769585803058690945816570833968589int * 3, m, 2int, 12817582045984265736341483309617801027251367994161761850694761660422049488601int);
    assert(mod_pow(3, 18561, 21888242871839275222246405745257275088696311157297823662689037894645226208583nat) == 12817582045984265736341483309617801027251367994161761850694761660422049488601nat);
    lemma_fundamental_div_mod_converse(12817582045984265736341483309617801027251367994161761850694761660422049488601int * 12817582045984265736341483309617801027251367994161761850694761660422049488601int, m, 7505874750545146259850723722619183308731163664042885899354948310534782602681int, 16289352833429193119673595773772362020961527970150070595835356460355107926178int);
    lemma_fundamental_div_mod_converse(16289352833429193119673595773772362020961527970150070595835356460355107926178int * 3, m, 2int, 5091572756609028914527975830802535885491961595854564462127993591774871361368int);
    assert(mod_pow(3, 37123, 21888242871839275222246405745257275088696311157297823662689037894645226208583nat) == 5091572756609028914527975830802535885491961595854564462127993591774871361368nat);
    lemma_fundamental_div_mod_converse(5091572756609028914527975830802535885491961595854564462127993591774871361368int * 5091572756609028914527975830802535885491961595854564462127993591774871361368int, m, 1184385301626765760350399428873061187874765554888509145250648550603610194025int, 6156114401256530111000225081826719244043171713219403875814606691497892514849int);
    lemma_fundamental_div_mod_converse(6156114401256530111000225081826719244043171713219403875814606691497892514849int * 3, m, 0int, 18468343203769590333000675245480157732129515139658211627443820074493677544547int);
    assert(mod_pow(3, 74247, 21888242871839275222246405745257275088696311157297823662689037894645226208583nat) == 18468343203769590333000675245480157732129515139658211627443820074493677544547nat);
    lemma_fundamental_div_mod_converse(18468343203769590333000675245480157732129515139658211627443820074493677544547int * 18468343203769590333000675245480157732129515139658211627443820074493677544547int, m, 15582781253357017074607321878465845156153103805706036302140139739358668874309int, 4031604896579844367105304987321045119797123563491156768265387955826525441062int);
    assert(mod_pow(3, 148494, 21888242871839275222246405745257275088696311157297823662689037894645226208583nat) == 4031604896579844367105304987321045119797123563491156768265387955826525441062nat);
    lemma_fundamental_div_mod_converse(4031604896579844367105304987321045119797123563491156768265387955826525441062int * 4031604896579844367105304987321045119797123563491156768265387955826525441062int, m, 742583045029998929275942987242969707812399226233362301962532183648691368185int, 7920995171071863299227855243504351118682065879706283395046720029207175555989int);
    lemma_fundamental_div_mod_converse(7920995171071863299227855243504351118682065879706283395046720029207175555989int * 3, m, 1int, 1874742641376314675437159985255778267349886481821026522451122192976300459384int);
    assert(mod_pow(3, 296989, 21888242871839275222246405745257275088696311157297823662689037894645226208583nat) == 1874742641376314675437159985255778267349886481821026522451122192976300459384nat);
    lemma_fundamental_div_mod_converse(1874742641376314675437159985255778267349886481821026522451122192976300459384int * 1874742641376314675437159985255778267349886481821026522451122192976300459384int, m, 160572961108563546808092153252800988479300734936989522624890282726536362550int, 19336006572811880192855358873662398409749873694831129929122223737589023892806int);
    lemma_fundamental_div_mod_converse(19336006572811880192855358873662398409749873694831129929122223737589023892806int * 3, m, 2int, 14231533974757090134073265130472645051856998769897742461988595423476619261252int);
    assert(mod_pow(3, 593979, 21888242871839275222246405745257275088696311157297823662689037894645226208583nat) == 14231533974757090134073265130472645051856998769897742461988595423476619261252nat);
    lemma_fundamental_div_mod_converse(14231533974757090134073265130472645051856998769897742461988595423476619261252int * 14231533974757090134073265130472645051856998769897742461988595423476619261252int, m, 9253212350601359002684323732174276528277615311082072541763392660253289809616int, 8147440931315641653957820524328074852568213468792989926112806373160653473376int);
    assert(mod_pow(3, 1187958, 21888242871839275222246405745257275088696311157297823662689037894645226208583nat) == 8147440931315641653957820524328074852568213468792989926112806373160653473376nat);
    lemma_fundamental_div_mod_converse(8147440931315641653957820524328074852568213468792989926112806373160653473376int * 8147440931315641653957820524328074852568213468792989926112806373160653473376int, m, 3032714600160112962180832587013998398559431027520383797139632522714896113873int, 10062053558881963707019810539663076436714791482779884125558640130776722865417int);
    assert(mod_pow(3, 2375916, 21888242871839275222246405745257275088696311157297823662689037894645226208583nat) == 10062053558881963707019810539663076436714791482779884125558640130776722865417nat);
    lemma_fundamental_div_mod_converse(10062053558881963707019810539663076436714791482779884125558640130776722865417int * 10062053558881963707019810539663076436714791482779884125558640130776722865417int, m, 4625539035482273600145450340047270936221215422117369955716100926675468268112int, 18285154738210566143984270398029763874558562508612483160044064443564014978593int);
    assert(mod_pow(3, 4751832, 21888242871839275222246405745257275088696311157297823662689037894645226208583nat) == 18285154738210566143984270398029763874558562508612483160044064443564014978593nat);
    lemma_fundamental_div_mod_converse(18285154738210566143984270398029763874558562508612483160044064443564014978593int * 18285154738210566143984270398029763874558562508612483160044064443564014978593int, m, 15275181555595058816349646187534076564630929935723322286583060926035983948102int, 5801933893699592544088989407234492002134228005497940069729542025561349300183int);
    lemma_fundamental_div_mod_converse(5801933893699592544088989407234492002134228005497940069729542025561349300183int * 3, m, 0int, 17405801681098777632266968221703476006402684016493820209188626076684047900549int);
    assert(mod_pow(3, 9503665, 21888242871839275222246405745257275088696311157297823662689037894645226208583nat) == 17405801681098777632266968221703476006402684016493820209188626076684047900549nat);
    lemma_fundamental_div_mod_converse(17405801681098777632266968221703476006402684016493820209188626076684047900549int * 17405801681098777632266968221703476006402684016493820209188626076684047900549int, m, 13841308959136337329234335831815886518430323758930451936752712785606392043398int, 21646548149252795921379587229733200302629801430233755009038365149905058416367int);
    assert(mod_pow(3, 19007330, 21888242871839275222246405745257275088696311157297823662689037894645226208583nat) == 21646548149252795921379587229733200302629801430233755009038365149905058416367nat);
    lemma_fundamental_div_mod_converse(21646548149252795921379587229733200302629801430233755009038365149905058416367int * 21646548149252795921379587229733200302629801430233755009038365149905058416367int, m, 21407522272186178418632098196850176506958275568162183397048702085531793875966int, 14403526604924436359999206803353270822377151677576880141904526906541586862511int);
    lemma_fundamental_div_mod_converse(14403526604924436359999206803353270822377151677576880141904526906541586862511int * 3, m, 1int, 21322336942934033857751214664802537378435143875432816763024542824979534378950int);
    assert(mod_pow(3, 38014661, 21888242871839275222246405745257275088696311157297823662689037894645226208583nat) == 21322336942934033857751214664802537378435143875432816763024542824979534378950nat);
    lemma_fundamental_div_mod_converse(21322336942934033857751214664802537378435143875432816763024542824979534378950int * 21322336942934033857751214664802537378435143875432816763024542824979534378950int, m, 20771062134591792415605272946843842914309238780573244918415699387654683849546int, 12728835384020791850793349123607362183155298155132147008830796336873417249182int);
    lemma_fundamental_div_mod_converse(12728835384020791850793349123607362183155298155132147008830796336873417249182int * 3, m, 1int, 16298263280223100330133641625564811460769583308098617363803351115975025538963int);
    assert(mod_pow(3, 76029323, 21888242871839275222246405745257275088696311157297823662689037894645226208583nat) == 16298263280223100330133641625564811460769583308098617363803351115975025538963nat);
    lemma_fundamental_div_mod_converse(16298263280223100330133641625564811460769583308098617363803351115975025538963int * 16298263280223100330133641625564811460769583308098617363803351115975025538963int, m, 12135893571120056102137687193841162425510393353248528186895221820239131115182int, 13282737208087254845885782413370793381322139535212845016935538548982101108263int);
    lemma_fundamental_div_mod_converse(13282737208087254845885782413370793381322139535212845016935538548982101108263int * 3, m, 1int, 17959968752422489315410941494855105055270107448340711388117577752301077116206int);
    assert(mod_pow(3, 152058647, 21888242871839275222246405745257275088696311157297823662689037894645226208583nat) == 17959968752422489315410941494855105055270107448340711388117577752301077116206nat);
    lemma_fundamental_div_mod_converse(17959968752422489315410941494855105055270107448340711388117577752301077116206int * 17959968752422489315410941494855105055270107448340711388117577752301077116206int, m, 14736700404717657420519178154995002418656912833768827660907919538417694467085int, 1934479660265875887401673574404951083392660584813812493558796739569989843881int);
    lemma_fundamental_div_mod_converse(1934479660265875887401673574404951083392660584813812493558796739569989843881int * 3, m, 0int, 5803438980797627662205020723214853250177981754441437480676390218709969531643int);
    assert(mod_pow(3, 304117295, 21888242871839275222246405745257275088696311157297823662689037894645226208583nat) == 5803438980797627662205020723214853250177981754441437480676390218709969531643nat);
    lemma_fundamental_div_mod_converse(5803438980797627662205020723214853250177981754441437480676390218709969531643int * 5803438980797627662205020723214853250177981754441437480676390218709969531643int, m, 1538721230436131189560594994398990489450375041954465568594601200915177345252int, 3402329894288736596115328182644007779828240355887304284442584663377621581533int);
    lemma_fundamental_div_mod_converse(3402329894288736596115328182644007779828240355887304284442584663377621581533int * 3, m, 0int, 10206989682866209788345984547932023339484721067661912853327753990132864744599int);
    assert(mod_pow(3, 608234591, 21888242871839275222246405745257275088696311157297823662689037894645226208583nat) == 10206989682866209788345984547932023339484721067661912853327753990132864744599nat);
    lemma_fundamental_div_mod_converse(10206989682866209788345984547932023339484721067661912853327753990132864744599int * 10206989682866209788345984547932023339484721067661912853327753990132864744599int, m, 4759753398029741131976978039844444362125332137582139536482998974786365883836int, 12012418444318933049457569822696593544396404934243651574270487364835415506413int);
    assert(mod_pow(3, 1216469182, 21888242871839275222246405745257275088696311157297823662689037894645226208583nat) == 12012418444318933049457569822696593544396404934243651574270487364835415506413nat);
    lemma_fundamental_div_mod_converse(12012418444318933049457569822696593544396404934243651574270487364835415506413int * 12012418444318933049457569822696593544396404934243651574270487364835415506413int, m, 6592497978312513006362330364373597988603948600408031319250025167494364205184int, 17237593974117066298348116794718411775375890584930626703988606392268650232297int);
    assert(mod_pow(3, 2432938364, 21888242871839275222246405745257275088696311157297823662689037894645226208583nat) == 17237593974117066298348116794718411775375890584930626703988606392268650232297nat);
    lemma_fundamental_div_mod_converse(17237593974117066298348116794718411775375890584930626703988606392268650232297int * 17237593974117066298348116794718411775375890584930626703988606392268650232297int, m, 13575079907341538338858597830811637856346203717660495178042304361635548168090int, 11101279621815195470883422789447050810755105913001344881450564369650177179739int);
    assert(mod_pow(3, 4865876728, 21888242871839275222246405745257275088696311157297823662689037894645226208583nat) == 11101279621815195470883422789447050810755105913001344881450564369650177179739nat);
    lemma_fundamental_div_mod_converse(11101279621815195470883422789447050810755105913001344881450564369650177179739int * 11101279621815195470883422789447050810755105913001344881450564369650177179739int, m, 5630347303953027230319706730030162741533026393178496875134663621143714920823int, 18042878884362880194935094718566731455981735251713344959461245150929584084312int);
    lemma_fundamental_div_mod_converse(18042878884362880194935094718566731455981735251713344959461245150929584084312int * 3, m, 2int, 10352150909410090140312472665185644190552583440544387553005659663498299835770int);
    assert(mod_pow(3, 9731753457, 21888242871839275222246405745257275088696311157297823662689037894645226208583nat) == 10352150909410090140312472665185644190552583440544387553005659663498299835770nat);
    lemma_fundamental_div_mod_converse(10352150909410090140312472665185644190552583440544387553005659663498299835770int * 10352150909410090140312472665185644190552583440544387553005659663498299835770int, m, 4896100115422142183624713381424719582575674874654233037645210003381485720378int, 8166517783764894870744979108931500062348180442224584766139172679357529888526int);
    assert(mod_pow(3, 19463506914, 21888242871839275222246405745257275088696311157297823662689037894645226208583nat) == 8166517783764894870744979108931500062348180442224584766139172679357529888526nat);
    lemma_fundamental_div_mod_converse(8166517783764894870744979108931500062348180442224584766139172679357529888526int * 8166517783764894870744979108931500062348180442224584766139172679357529888526int, m, 3046933145938001992690275828407845171276074136288502281120426923085884705675int, 16700555977744031089718395658133843178297703072990870385163391920466872644151int);
    assert(mod_pow(3, 38927013828, 21888242871839275222246405745257275088696311157297823662689037894645226208583nat) == 16700555977744031089718395658133843178297703072990870385163391920466872644151nat);
    lemma_fundamental_div_mod_converse(16700555977744031089718395658133843178297703072990870385163391920466872644151int * 16700555977744031089718395658133843178297703072990870385163391920466872644151int, m, 12742391958954223923605339193274869019693649056551146384371641233347613337705int, 18798346881433667813331400064868950485922610489500854268032853647267125988786int);
    assert(mod_pow(3, 77854027656, 21888242871839275222246405745257275088696311157297823662689037894645226208583nat) == 18798346881433667813331400064868950485922610489500854268032853647267125988786nat);
    lemma_fundamental_div_mod_converse(18798346881433667813331400064868950485922610489500854268032853647267125988786int * 18798346881433667813331400064868950485922610489500854268032853647267125988786int, m, 16144642013697304342165001205410620011716084502820422399310853439572334184852int, 2251746510471770526365859958107400060094995261234199971688034209400366769080int);
    lemma_fundamental_div_mod_converse(2251746510471770526365859958107400060094995261234199971688034209400366769080int * 3, m, 0int, 6755239531415311579097579874322200180284985783702599915064102628201100307240int);
    assert(mod_pow(3, 155708055313, 21888242871839275222246405745257275088696311157297823662689037894645226208583nat) == 6755239531415311579097579874322200180284985783702599915064102628201100307240nat);
    lemma_fundamental_div_mod_converse(6755239531415311579097579874322200180284985783702599915064102628201100307240int * 6755239531415311579097579874322200180284985783702599915064102628201100307240int, m, 2084829805388648931376023028986389119511624944970657774248728761555645091139int, 16342292789163101536083938347622085159942838788892891157875634609649937371563int);
    lemma_fundamental_div_mod_converse(16342292789163101536083938347622085159942838788892891157875634609649937371563int * 3, m, 2int, 5250392623810754163759003552351705302435894052083026148248828039659359697523int);
    assert(mod_pow(3, 311416110627, 21888242871839275222246405745257275088696311157297823662689037894645226208583nat) == 5250392623810754163759003552351705302435894052083026148248828039659359697523nat);
    lemma_fundamental_div_mod_converse(5250392623810754163759003552351705302435894052083026148248828039659359697523int * 5250392623810754163759003552351705302435894052083026148248828039659359697523int, m, 1259426024536337960024150374368822366323532976422412392088642736619883538786int, 18543620030974544921269345328046541960084610666722181477276040245718245735291int);
    lemma_fundamental_div_mod_converse(18543620030974544921269345328046541960084610666722181477276040245718245735291int * 3, m, 2int, 11854374349245084319315224493625075702861209685570897106450044947864284788707int);
    assert(mod_pow(3, 622832221255, 21888242871839275222246405745257275088696311157297823662689037894645226208583nat) == 11854374349245084319315224493625075702861209685570897106450044947864284788707nat);
    lemma_fundamental_div_mod_converse(11854374349245084319315224493625075702861209685570897106450044947864284788707int * 11854374349245084319315224493625075702861209685570897106450044947864284788707int, m, 6420167760146539385215729566075277503548098091071006015999962763967359131784int, 1685263538045719479175226642597300991413879262682873906131940384170665829777int);
    lemma_fundamental_div_mod_converse(1685263538045719479175226642597300991413879262682873906131940384170665829777int * 3, m, 0int, 5055790614137158437525679927791902974241637788048621718395821152511997489331int);
    assert(mod_pow(3, 1245664442511, 21888242871839275222246405745257275088696311157297823662689037894645226208583nat) == 5055790614137158437525679927791902974241637788048621718395821152511997489331nat);
    lemma_fundamental_div_mod_converse(5055790614137158437525679927791902974241637788048621718395821152511997489331int * 5055790614137158437525679927791902974241637788048621718395821152511997489331int, m, 1167796742920985601449088079104860028733093624474915574126054735199966466333int, 15713554014191744381463304421762224532249843603066432886629069582465753691422int);
    assert(mod_pow(3, 2491328885022, 21888242871839275222246405745257275088696311157297823662689037894645226208583nat) == 15713554014191744381463304421762224532249843603066432886629069582465753691422nat);
    lemma_fundamental_div_mod_converse(15713554014191744381463304421762224532249843603066432886629069582465753691422int * 15713554014191744381463304421762224532249843603066432886629069582465753691422int, m, 11280749268119441374273261168439345844638821695661628764156880917672608080600int, 13308660148961449351939377529934103892496264139866920291590623562392720592284int);
    lemma_fundamental_div_mod_converse(13308660148961449351939377529934103892496264139866920291590623562392720592284int * 3, m, 1int, 18037737575045072833571726844545036588792481262302937212082832792532935568269int);
    assert(mod_pow(3, 4982657770045, 21888242871839275222246405745257275088696311157297823662689037894645226208583nat) == 18037737575045072833571726844545036588792481262302937212082832792532935568269nat);
    lemma_fundamental_div_mod_converse(18037737575045072833571726844545036588792481262302937212082832792532935568269int * 18037737575045072833571726844545036588792481262302937212082832792532935568269int, m, 14864600083764184488409308170342835326976572977451325048564434761581741793805int, 1342065825466767803760447418816184538271562238999321934659821698128452428046int);
    assert(mod_pow(3, 9965315540090, 21888242871839275222246405745257275088696311157297823662689037894645226208583nat) == 1342065825466767803760447418816184538271562238999321934659821698128452428046nat);
    lemma_fundamental_div_mod_converse(1342065825466767803760447418816184538271562238999321934659821698128452428046int * 1342065825466767803760447418816184538271562238999321934659821698128452428046int, m, 82288043422758608175918046730909536642103839122314447101734514374596572885int, 9321213296856865412251744335364910807698389179540296172317546164138835306161int);
    lemma_fundamental_div_mod_converse(9321213296856865412251744335364910807698389179540296172317546164138835306161int * 3, m, 1int, 6075397018731321014508827260837457334398856381323064854263600597771279709900int);
    assert(mod_pow(3, 19930631080181, 21888242871839275222246405745257275088696311157297823662689037894645226208583nat) == 6075397018731321014508827260837457334398856381323064854263600597771279709900nat);
    lemma_fundamental_div_mod_converse(6075397018731321014508827260837457334398856381323064854263600597771279709900int * 6075397018731321014508827260837457334398856381323064854263600597771279709900int, m, 1686313933527174349704424395853133734069496997028924849705705466754890252210int, 14202421497224240720256552573435894039864839440579874500664575755705221291570int);
    assert(mod_pow(3, 39861262160362, 21888242871839275222246405745257275088696311157297823662689037894645226208583nat) == 14202421497224240720256552573435894039864839440579874500664575755705221291570nat);
    lemma_fundamental_div_mod_converse(14202421497224240720256552573435894039864839440579874500664575755705221291570int * 14202421497224240720256552573435894039864839440579874500664575755705221291570int, m, 9215393742013408045114097702662257688797754044240354977300080016617251536522int, 19847711438653314564149126049960457004130352361253454729897030135537738696574int);
    assert(mod_pow(3, 79722524320724, 21888242871839275222246405745257275088696311157297823662689037894645226208583nat) == 19847711438653314564149126049960457004130352361253454729897030135537738696574nat);
    lemma_fundamental_div_mod_converse(19847711438653314564149126049960457004130352361253454729897030135537738696574int * 19847711438653314564149126049960457004130352361253454729897030135537738696574int, m, 17997408547529856522158494686259950389252187362484294290335616393452413572251int, 8094947881814432600711888333634381836538640709541428987714346325100572507143int);
    assert(mod_pow(3, 159445048641448, 21888242871839275222246405745257275088696311157297823662689037894645226208583nat) == 8094947881814432600711888333634381836538640709541428987714346325100572507143nat);
    lemma_fundamental_div_mod_converse(8094947881814432600711888333634381836538640709541428987714346325100572507143int * 8094947881814432600711888333634381836538640709541428987714346325100572507143int, m, 2993761609507653344248705930996982626808558733567645067466723354533371261960int, 15592413896170269897577409765591203590614858791489199894644251399447892619769int);
    lemma_fundamental_div_mod_converse(15592413896170269897577409765591203590614858791489199894644251399447892619769int * 3, m, 2int, 3000755944832259248239417806259060594451954059871952358554678409053225442141int);
    assert(mod_pow(3, 318890097282897, 21888242871839275222246405745257275088696311157297823662689037894645226208583nat) == 3000755944832259248239417806259060594451954059871952358554678409053225442141nat);
    lemma_fundamental_div_mod_converse(3000755944832259248239417806259060594451954059871952358554678409053225442141int * 3000755944832259248239417806259060594451954059871952358554678409053225442141int, m, 411386893556042271237139118000651492023291792483959015972084571038356234711int, 21596123398014698549406533742868615064987507420140752281868155604006747939368int);
    lemma_fundamental_div_mod_converse(21596123398014698549406533742868615064987507420140752281868155604006747939368int * 3, m, 2int, 21011884450365545203726789738091295017569899945826609520226391022729791400938int);
    assert(mod_pow(3, 637780194565795, 21888242871839275222246405745257275088696311157297823662689037894645226208583nat) == 21011884450365545203726789738091295017569899945826609520226391022729791400938nat);
    lemma_fundamental_div_mod_converse(21011884450365545203726789738091295017569899945826609520226391022729791400938int * 21011884450365545203726789738091295017569899945826609520226391022729791400938int, m, 20170613545390273712387201603016005672508098180435961977534325468261118032796int, 6088560708687070474794700253958348291213755386051111281290584393434136591776int);
    lemma_fundamental_div_mod_converse(6088560708687070474794700253958348291213755386051111281290584393434136591776int * 3, m, 0int, 18265682126061211424384100761875044873641266158153333843871753180302409775328int);
    assert(mod_pow(3, 1275560389131591, 21888242871839275222246405745257275088696311157297823662689037894645226208583nat) == 18265682126061211424384100761875044873641266158153333843871753180302409775328nat);
    lemma_fundamental_div_mod_converse(18265682126061211424384100761875044873641266158153333843871753180302409775328int * 18265682126061211424384100761875044873641266158153333843871753180302409775328int, m, 15242664542961394940958107076876000740744898955042944813961598337766069695363int, 15455729657609663168893571276707156225322686243772631218331501251529131606955int);
    assert(mod_pow(3, 2551120778263182, 21888242871839275222246405745257275088696311157297823662689037894645226208583nat) == 15455729657609663168893571276707156225322686243772631218331501251529131606955nat);
    lemma_fundamental_div_mod_converse(15455729657609663168893571276707156225322686243772631218331501251529131606955int * 15455729657609663168893571276707156225322686243772631218331501251529131606955int, m, 10913602368532280337767401519979776944138225248246147120086473873290999290176int, 8471090097889488475191253902950288962237725782168538023021708885175885591417int);
    lemma_fundamental_div_mod_converse(8471090097889488475191253902950288962237725782168538023021708885175885591417int * 3, m, 1int, 3525027421829190203327355963593591798016866189207790406376088760882430565668int);
    assert(mod_pow(3, 5102241556526365, 21888242871839275222246405745257275088696311157297823662689037894645226208583nat) == 3525027421829190203327355963593591798016866189207790406376088760882430565668nat);
    lemma_fundamental_div_mod_converse(3525027421829190203327355963593591798016866189207790406376088760882430565668int * 3525027421829190203327355963593591798016866189207790406376088760882430565668int, m, 567693733910199555044912227951401537169570521940945915648519217016618774384int, 15188833886738426538333843229941198283642492156800776106775870991061858948352int);
    assert(mod_pow(3, 10204483113052730, 21888242871839275222246405745257275088696311157297823662689037894645226208583nat) == 15188833886738426538333843229941198283642492156800776106775870991061858948352nat);
    lemma_fundamental_div_mod_converse(15188833886738426538333843229941198283642492156800776106775870991061858948352int * 15188833886738426538333843229941198283642492156800776106775870991061858948352int, m, 10539935808906148813885583436091461100026956621061408653922741524501362568536int, 5477511201632064214608186619690869460651986120808715506406970257297634571416int);
    lemma_fundamental_div_mod_converse(5477511201632064214608186619690869460651986120808715506406970257297634571416int * 3, m, 0int, 16432533604896192643824559859072608381955958362426146519220910771892903714248int);
    assert(mod_pow(3, 20408966226105461, 21888242871839275222246405745257275088696311157297823662689037894645226208583nat) == 16432533604896192643824559859072608381955958362426146519220910771892903714248nat);
    lemma_fundamental_div_mod_converse(16432533604896192643824559859072608381955958362426146519220910771892903714248int * 16432533604896192643824559859072608381955958362426146519220910771892903714248int, m, 12336676007166038805130925967497474423399506431270644611716681661810615669300int, 15001518181674407376267728831100198297509329855943831265955947850464088603604int);
    assert(mod_pow(3, 40817932452210922, 21888242871839275222246405745257275088696311157297823662689037894645226208583nat) == 15001518181674407376267728831100198297509329855943831265955947850464088603604nat);
    lemma_fundamental_div_mod_converse(15001518181674407376267728831100198297509329855943831265955947850464088603604int * 15001518181674407376267728831100198297509329855943831265955947850464088603604int, m, 10281572124030309470928682721040647851362063334005472440130672930715482638283int, 5015850098822616481788389230595660653338193906125189192808330596808542805827int);
    lemma_fundamental_div_mod_converse(5015850098822616481788389230595660653338193906125189192808330596808542805827int * 3, m, 0int, 15047550296467849445365167691786981960014581718375567578424991790425628417481int);
    assert(mod_pow(3, 81635864904421845, 21888242871839275222246405745257275088696311157297823662689037894645226208583nat) == 15047550296467849445365167691786981960014581718375567578424991790425628417481nat);
    lemma_fundamental_div_mod_converse(15047550296467849445365167691786981960014581718375567578424991790425628417481int * 15047550296467849445365167691786981960014581718375567578424991790425628417481int, m, 10344766880124753948961746821161083876961258837305479796876840152539982599612int, 7619091693761995633339030678292399174801178901742811655384464554937539515565int);
    lemma_fundamental_div_mod_converse(7619091693761995633339030678292399174801178901742811655384464554937539515565int * 3, m, 1int, 969032209446711677770686289619922435707225547930611303464355770167392338112int);
    assert(mod_pow(3, 163271729808843691, 21888242871839275222246405745257275088696311157297823662689037894645226208583nat) == 969032209446711677770686289619922435707225547930611303464355770167392338112nat);
    lemma_fundamental_div_mod_converse(969032209446711677770686289619922435707225547930611303464355770167392338112int * 969032209446711677770686289619922435707225547930611303464355770167392338112int, m, 42900813392987962852591486659351264256043592024634373781740102970297854005int, 19620640866200523234304317072743218035137471747485585630082440866734715799629int);
    assert(mod_pow(3, 326543459617687382, 21888242871839275222246405745257275088696311157297823662689037894645226208583nat) == 19620640866200523234304317072743218035137471747485585630082440866734715799629nat);
    lemma_fundamental_div_mod_converse(19620640866200523234304317072743218035137471747485585630082440866734715799629int * 19620640866200523234304317072743218035137471747485585630082440866734715799629int, m, 17587960360934578709993491632810942502382977131076587550481144191018474069219int, 11529808363789836265412130921034607387826765487419701121547053874205602630964int);
    lemma_fundamental_div_mod_converse(11529808363789836265412130921034607387826765487419701121547053874205602630964int * 3, m, 1int, 12701182219530233573989987017846547074783985304961279701952123727971581684309int);
    assert(mod_pow(3, 653086919235374765, 21888242871839275222246405745257275088696311157297823662689037894645226208583nat) == 12701182219530233573989987017846547074783985304961279701952123727971581684309nat);
    lemma_fundamental_div_mod_converse(12701182219530233573989987017846547074783985304961279701952123727971581684309int * 12701182219530233573989987017846547074783985304961279701952123727971581684309int, m, 7370168118029256079876292129547686685524127455285617774830515693356728017911int, 11537893011362416135488653885524648585966435051234381350983189625670290877368int);
    lemma_fundamental_div_mod_converse(11537893011362416135488653885524648585966435051234381350983189625670290877368int * 3, m, 1int, 12725436162247973184219555911316670669202993996405320390260530982365646423521int);
    assert(mod_pow(3, 1306173838470749531, 21888242871839275222246405745257275088696311157297823662689037894645226208583nat) == 12725436162247973184219555911316670669202993996405320390260530982365646423521nat);
    lemma_fundamental_div_mod_converse(12725436162247973184219555911316670669202993996405320390260530982365646423521int * 12725436162247973184219555911316670669202993996405320390260530982365646423521int, m, 7398342866881796225914685009799107240066635840078637225537648849478486454336int, 20466257707837224263964238710615901130758367208616519974904882137158461271553int);
    assert(mod_pow(3, 2612347676941499062, 21888242871839275222246405745257275088696311157297823662689037894645226208583nat) == 20466257707837224263964238710615901130758367208616519974904882137158461271553nat);
    lemma_fundamental_div_mod_converse(20466257707837224263964238710615901130758367208616519974904882137158461271553int * 20466257707837224263964238710615901130758367208616519974904882137158461271553int, m, 19136652814763336074974108198020064154707823445620095449881362777504045263013int, 7722762956640658306707523695167523943822965564005176143070928483094573991230int);
    assert(mod_pow(3, 5224695353882998124, 21888242871839275222246405745257275088696311157297823662689037894645226208583nat) == 7722762956640658306707523695167523943822965564005176143070928483094573991230nat);
    lemma_fundamental_div_mod_converse(7722762956640658306707523695167523943822965564005176143070928483094573991230int * 7722762956640658306707523695167523943822965564005176143070928483094573991230int, m, 2724799246502947208649599407755613923582298565371921120207044697761601980052int, 5683564502337545413973617443691629118857747122279749118150965119914559726584int);
    assert(mod_pow(3, 10449390707765996248nat, 21888242871839275222246405745257275088696311157297823662689037894645226208583nat) == 5683564502337545413973617443691629118857747122279749118150965119914559726584nat);
    lemma_fundamental_div_mod_converse(5683564502337545413973617443691629118857747122279749118150965119914559726584int * 5683564502337545413973617443691629118857747122279749118150965119914559726584int, m, 1475810810459862556023366107416214230170261764411116937691087264896845536033int, 5717362794417118769360511557084836400981942719090429335275074168239935937817int);
    assert(mod_pow(3, 20898781415531992496nat, 21888242871839275222246405745257275088696311157297823662689037894645226208583nat) == 5717362794417118769360511557084836400981942719090429335275074168239935937817nat);
    lemma_fundamental_div_mod_converse(5717362794417118769360511557084836400981942719090429335275074168239935937817int * 5717362794417118769360511557084836400981942719090429335275074168239935937817int, m, 1493415324125482133743731423745949112446602873307750967116691774814235991744int, 2459246306773635766336332622879559330631839451700107688693431545323280786737int);
    assert(mod_pow(3, 41797562831063984992nat, 21888242871839275222246405745257275088696311157297823662689037894645226208583nat) == 2459246306773635766336332622879559330631839451700107688693431545323280786737nat);
    lemma_fundamental_div_mod_converse(2459246306773635766336332622879559330631839451700107688693431545323280786737int * 2459246306773635766336332622879559330631839451700107688693431545323280786737int, m, 276307807474157533126014442133157093591934257660053200694915644223196118008int, 9950511246527792030805979701689555317581086730972057643863751806547984644505int);
    lemma_fundamental_div_mod_converse(9950511246527792030805979701689555317581086730972057643863751806547984644505int * 3, m, 1int, 7963290867744100870171533359811390864046949035618349268902217524998727724932int);
    assert(mod_pow(3, 83595125662127969985nat, 21888242871839275222246405745257275088696311157297823662689037894645226208583nat) == 7963290867744100870171533359811390864046949035618349268902217524998727724932nat);
    lemma_fundamental_div_mod_converse(7963290867744100870171533359811390864046949035618349268902217524998727724932int * 7963290867744100870171533359811390864046949035618349268902217524998727724932int, m, 2897171865992178594140952915758345585835345307202114970347229569750415754243int, 10471136548926680583200127969789956993798330367341705724075898343685469136955int);
    assert(mod_pow(3, 167190251324255939970nat, 21888242871839275222246405745257275088696311157297823662689037894645226208583nat) == 10471136548926680583200127969789956993798330367341705724075898343685469136955nat);
    lemma_fundamental_div_mod_converse(10471136548926680583200127969789956993798330367341705724075898343685469136955int * 10471136548926680583200127969789956993798330367341705724075898343685469136955int, m, 5009296601297017636361215568212302532711932944652252060912480393523034934466int, 19034457858015024022780149146662077052295928966919391730844753402877494950347int);
    lemma_fundamental_div_mod_converse(19034457858015024022780149146662077052295928966919391730844753402877494950347int * 3, m, 2int, 13326887830366521623847635949471680979495164586162527867156184419342032433875int);
    assert(mod_pow(3, 334380502648511879941nat, 21888242871839275222246405745257275088696311157297823662689037894645226208583nat) == 13326887830366521623847635949471680979495164586162527867156184419342032433875nat);
    lemma_fundamental_div_mod_converse(13326887830366521623847635949471680979495164586162527867156184419342032433875int * 13326887830366521623847635949471680979495164586162527867156184419342032433875int, m, 8114216398415128553768542735545575139051633551341997702142734561214051379879int, 17865157186989833081138427149131064289488307984936725365311140902169624214168int);
    assert(mod_pow(3, 668761005297023759882nat, 21888242871839275222246405745257275088696311157297823662689037894645226208583nat) == 17865157186989833081138427149131064289488307984936725365311140902169624214168nat);
    lemma_fundamental_div_mod_converse(17865157186989833081138427149131064289488307984936725365311140902169624214168int * 17865157186989833081138427149131064289488307984936725365311140902169624214168int, m, 14581519548400143375866478201811132272018825121937795724342630748578521964000int, 4370986377366346270783684404779004727773891013599335014739113606400714920224int);
    assert(mod_pow(3, 1337522010594047519764nat, 21888242871839275222246405745257275088696311157297823662689037894645226208583nat) == 4370986377366346270783684404779004727773891013599335014739113606400714920224nat);
    lemma_fundamental_div_mod_converse(4370986377366346270783684404779004727773891013599335014739113606400714920224int * 4370986377366346270783684404779004727773891013599335014739113606400714920224int, m, 872866863867941577341537121338613548318704721202155271964737101404079516395int, 19058742116858275292769272623575951587766332675638897075441678435528645991891int);
    lemma_fundamental_div_mod_converse(19058742116858275292769272623575951587766332675638897075441678435528645991891int * 3, m, 2int, 13399740606896275433815006380213304585906375712321043900946959517295485558507int);
    assert(mod_pow(3, 2675044021188095039529nat, 21888242871839275222246405745257275088696311157297823662689037894645226208583nat) == 13399740606896275433815006380213304585906375712321043900946959517295485558507nat);
    lemma_fundamental_div_mod_converse(13399740606896275433815006380213304585906375712321043900946959517295485558507int * 13399740606896275433815006380213304585906375712321043900946959517295485558507int, m, 8203173246177392703182164068829222872421440884651650341776640932535934500120int, 11541985434141437541448671152246553545524692033037539357685585326940761539089int);
    assert(mod_pow(3, 5350088042376190079058nat, 21888242871839275222246405745257275088696311157297823662689037894645226208583nat) == 11541985434141437541448671152246553545524692033037539357685585326940761539089nat);
    lemma_fundamental_div_mod_converse(11541985434141437541448671152246553545524692033037539357685585326940761539089int * 11541985434141437541448671152246553545524692033037539357685585326940761539089int, m, 6086255006486905379114069079312085879189429807936968125150683320939019690818int, 5928543317977811031854996017943384478266854934563730917274981713825037059027int);
    lemma_fundamental_div_mod_converse(5928543317977811031854996017943384478266854934563730917274981713825037059027int * 3, m, 0int, 17785629953933433095564988053830153434800564803691192751824945141475111177081int);
    assert(mod_pow(3, 10700176084752380158117nat, 21888242871839275222246405745257275088696311157297823662689037894645226208583nat) == 17785629953933433095564988053830153434800564803691192751824945141475111177081nat);
    lemma_fundamental_div_mod_converse(17785629953933433095564988053830153434800564803691192751824945141475111177081int * 17785629953933433095564988053830153434800564803691192751824945141475111177081int, m, 14451988435546493422812763268557322203366517209077912329001173816381716296257int, 578511200681324147104645378553182838812043561084447910302873355044035506730int);
    assert(mod_pow(3, 21400352169504760316234nat, 21888242871839275222246405745257275088696311157297823662689037894645226208583nat) == 578511200681324147104645378553182838812043561084447910302873355044035506730nat);
    lemma_fundamental_div_mod_converse(578511200681324147104645378553182838812043561084447910302873355044035506730int * 578511200681324147104645378553182838812043561084447910302873355044035506730int, m, 15290181641045745947954666183646183647925789305720834551868283329653343210int, 14253922782258457088211438017767632079199309777971976239340834637869128521470int);
    lemma_fundamental_div_mod_converse(14253922782258457088211438017767632079199309777971976239340834637869128521470int * 3, m, 1int, 20873525474936096042387908308045621148901618176618105055333466018962159355827int);
    assert(mod_pow(3, 42800704339009520632469nat, 21888242871839275222246405745257275088696311157297823662689037894645226208583nat) == 20873525474936096042387908308045621148901618176618105055333466018962159355827nat);
    lemma_fundamental_div_mod_converse(20873525474936096042387908308045621148901618176618105055333466018962159355827int * 20873525474936096042387908308045621148901618176618105055333466018962159355827int, m, 19905849377857978707278582028703342926255641343737492837025636077173798503263int, 4419823736260975820956165943968766211643565341563343410419353446641954747600int);
    lemma_fundamental_div_mod_converse(4419823736260975820956165943968766211643565341563343410419353446641954747600int * 3, m, 0int, 13259471208782927462868497831906298634930696024690030231258060339925864242800int);
    assert(mod_pow(3, 85601408678019041264939nat, 21888242871839275222246405745257275088696311157297823662689037894645226208583nat) == 13259471208782927462868497831906298634930696024690030231258060339925864242800nat);
    lemma_fundamental_div_mod_converse(13259471208782927462868497831906298634930696024690030231258060339925864242800int * 13259471208782927462868497831906298634930696024690030231258060339925864242800int, m, 8032329400124648887622519562915197398693763983688740631553970274777455031126int, 3060844404327746303536325315781549124735682963343363513013702032410118485542int);
    assert(mod_pow(3, 171202817356038082529878nat, 21888242871839275222246405745257275088696311157297823662689037894645226208583nat) == 3060844404327746303536325315781549124735682963343363513013702032410118485542nat);
    lemma_fundamental_div_mod_converse(3060844404327746303536325315781549124735682963343363513013702032410118485542int * 3060844404327746303536325315781549124735682963343363513013702032410118485542int, m, 428027435658530585259387162898286604009450445178431296440469323582994679237int, 21318862903041106504850418924773603437125286539106336376330962176111921742593int);
    assert(mod_pow(3, 342405634712076165059756nat, 21888242871839275222246405745257275088696311157297823662689037894645226208583nat) == 21318862903041106504850418924773603437125286539106336376330962176111921742593nat);
    lemma_fundamental_div_mod_converse(21318862903041106504850418924773603437125286539106336376330962176111921742593int * 21318862903041106504850418924773603437125286539106336376330962176111921742593int, m, 20764294244167029538306963424439827561885772840758228495652924297855925934251int, 14205304468349669845307328786295726074264085384419618788520807271418880487316int);
    assert(mod_pow(3, 684811269424152330119512nat, 21888242871839275222246405745257275088696311157297823662689037894645226208583nat) == 14205304468349669845307328786295726074264085384419618788520807271418880487316nat);
    lemma_fundamental_div_mod_converse(14205304468349669845307328786295726074264085384419618788520807271418880487316int * 14205304468349669845307328786295726074264085384419618788520807271418880487316int, m, 9219135415302460453553997813550784568745678195930778084995040755039259247886int, 14153209998544789496424356481845183168650681589867207392912724011785699078318int);
    assert(mod_pow(3, 1369622538848304660239024nat, 21888242871839275222246405745257275088696311157297823662689037894645226208583nat) == 14153209998544789496424356481845183168650681589867207392912724011785699078318nat);
    lemma_fundamental_div_mod_converse(14153209998544789496424356481845183168650681589867207392912724011785699078318int * 14153209998544789496424356481845183168650681589867207392912724011785699078318int, m, 9151641565555956969564025723260051517244629717756665411086077171478738678992int, 20982856316691578772420074209219597732326712912500459867374204376712625520788int);
    lemma_fundamental_div_mod_converse(20982856316691578772420074209219597732326712912500459867374204376712625520788int * 3, m, 2int, 19172083206396185872767411137144243019587516422905732276744537340847424145198int);
    assert(mod_pow(3, 2739245077696609320478049nat, 21888242871839275222246405745257275088696311157297823662689037894645226208583nat) == 19172083206396185872767411137144243019587516422905732276744537340847424145198nat);
    lemma_fundamental_div_mod_converse(19172083206396185872767411137144243019587516422905732276744537340847424145198int * 19172083206396185872767411137144243019587516422905732276744537340847424145198int, m, 16792977701553242481790442544678622149679688091652797751773597663453060973597int, 5704999174126049388403004836492864419789706337884922342760428006646008676153int);
    assert(mod_pow(3, 5478490155393218640956098nat, 21888242871839275222246405745257275088696311157297823662689037894645226208583nat) == 5704999174126049388403004836492864419789706337884922342760428006646008676153nat);
    lemma_fundamental_div_mod_converse(5704999174126049388403004836492864419789706337884922342760428006646008676153int * 5704999174126049388403004836492864419789706337884922342760428006646008676153int, m, 1486963378803369915752389921067631420926356128292366845531950488343181329208int, 6967867212199973392195764374507159566271219787923476584631057143599432687145int);
    lemma_fundamental_div_mod_converse(6967867212199973392195764374507159566271219787923476584631057143599432687145int * 3, m, 0int, 20903601636599920176587293123521478698813659363770429753893171430798298061435int);
    assert(mod_pow(3, 10956980310786437281912197nat, 21888242871839275222246405745257275088696311157297823662689037894645226208583nat) == 20903601636599920176587293123521478698813659363770429753893171430798298061435nat);
    lemma_fundamental_div_mod_converse(20903601636599920176587293123521478698813659363770429753893171430798298061435int * 20903601636599920176587293123521478698813659363770429753893171430798298061435int, m, 19963254425682683502011047554743655383748414713892965759421204514640887144960int, 6927238580000391106089820664218225231215519290826504251839958416754717067545int);
    lemma_fundamental_div_mod_converse(6927238580000391106089820664218225231215519290826504251839958416754717067545int * 3, m, 0int, 20781715740001173318269461992654675693646557872479512755519875250264151202635int);
    assert(mod_pow(3, 21913960621572874563824395nat, 21888242871839275222246405745257275088696311157297823662689037894645226208583nat) == 20781715740001173318269461992654675693646557872479512755519875250264151202635nat);
    lemma_fundamental_div_mod_converse(20781715740001173318269461992654675693646557872479512755519875250264151202635int * 20781715740001173318269461992654675693646557872479512755519875250264151202635int, m, 19731127419727938214503408568452862733756761285907723309889333553323152623585int, 12533289815047626993025248102855150610356138032737732546190267855117935713170int);
    lemma_fundamental_div_mod_converse(12533289815047626993025248102855150610356138032737732546190267855117935713170int * 3, m, 1int, 15711626573303605756829338563308176742372102940915373975881765670708580930927int);
    assert(mod_pow(3, 43827921243145749127648791nat, 21888242871839275222246405745257275088696311157297823662689037894645226208583nat) == 15711626573303605756829338563308176742372102940915373975881765670708580930927nat);
    lemma_fundamental_div_mod_converse(15711626573303605756829338563308176742372102940915373975881765670708580930927int * 15711626573303605756829338563308176742372102940915373975881765670708580930927int, m, 11277982020956837637394008169068934566087671607415113409692665417523770373170int, 7339202572650718521420899329968566618730592343084976747152737713791778161219int);
    assert(mod_pow(3, 87655842486291498255297582nat, 21888242871839275222246405745257275088696311157297823662689037894645226208583nat) == 7339202572650718521420899329968566618730592343084976747152737713791778161219nat);
    lemma_fundamental_div_mod_converse(7339202572650718521420899329968566618730592343084976747152737713791778161219int * 7339202572650718521420899329968566618730592343084976747152737713791778161219int, m, 2460859682423504058881878059967723250966695039192943640571985412064290184435int, 15882809010080895637438401551120776190139867825352446739792477839243905560356int);
    lemma_fundamental_div_mod_converse(15882809010080895637438401551120776190139867825352446739792477839243905560356int * 3, m, 2int, 3871941286564136467822393162847778393026981161461692893999357728441264263902int);
    assert(mod_pow(3, 175311684972582996510595165nat, 21888242871839275222246405745257275088696311157297823662689037894645226208583nat) == 3871941286564136467822393162847778393026981161461692893999357728441264263902nat);
    lemma_fundamental_div_mod_converse(3871941286564136467822393162847778393026981161461692893999357728441264263902int * 3871941286564136467822393162847778393026981161461692893999357728441264263902int, m, 684930691530661195913040319394996686192098858597443288074581988557533480468int, 18170055328589135008782951505905262708747772531819589966385548752522175808760int);
    lemma_fundamental_div_mod_converse(18170055328589135008782951505905262708747772531819589966385548752522175808760int * 3, m, 2int, 10733680242088854581856043027201237948850695280863122573778570468276075009114int);
    assert(mod_pow(3, 350623369945165993021190331nat, 21888242871839275222246405745257275088696311157297823662689037894645226208583nat) == 10733680242088854581856043027201237948850695280863122573778570468276075009114nat);
    lemma_fundamental_div_mod_converse(10733680242088854581856043027201237948850695280863122573778570468276075009114int * 10733680242088854581856043027201237948850695280863122573778570468276075009114int, m, 5263642779093823357279988727547401350387521164421598433938220038640367330938int, 9708897448044674137679091115358390715164064315608489978759365593754206024142int);
    lemma_fundamental_div_mod_converse(9708897448044674137679091115358390715164064315608489978759365593754206024142int * 3, m, 1int, 7238449472294747190790867600817897056795881789527646273589058886617391863843int);
    assert(mod_pow(3, 701246739890331986042380663nat, 21888242871839275222246405745257275088696311157297823662689037894645226208583nat) == 7238449472294747190790867600817897056795881789527646273589058886617391863843nat);
    lemma_fundamental_div_mod_converse(7238449472294747190790867600817897056795881789527646273589058886617391863843int * 7238449472294747190790867600817897056795881789527646273589058886617391863843int, m, 2393757738789259184703960900624357966689354834595685585150102797256893606775int, 694226758641348679473859062632129118790975501022045069736904925888118778824int);
    assert(mod_pow(3, 1402493479780663972084761326nat, 21888242871839275222246405745257275088696311157297823662689037894645226208583nat) == 694226758641348679473859062632129118790975501022045069736904925888118778824nat);
    lemma_fundamental_div_mod_converse(694226758641348679473859062632129118790975501022045069736904925888118778824int * 694226758641348679473859062632129118790975501022045069736904925888118778824int, m, 22018706354621828644977446922259875084007528805866168926887812982002713071int, 20448279848639923482912579267436368336813555459786743086643091456812084334583int);
    assert(mod_pow(3, 2804986959561327944169522652nat, 21888242871839275222246405745257275088696311157297823662689037894645226208583nat) == 20448279848639923482912579267436368336813555459786743086643091456812084334583nat);
    lemma_fundamental_div_mod_converse(20448279848639923482912579267436368336813555459786743086643091456812084334583int * 20448279848639923482912579267436368336813555459786743086643091456812084334583int, m, 19103047751094229777533462424032432002485018312217111124132441591660561828759int, 11152175547161498904174877255232872489445962244468673038294038767291427745392int);
    assert(mod_pow(3, 5609973919122655888339045304nat, 21888242871839275222246405745257275088696311157297823662689037894645226208583nat) == 11152175547161498904174877255232872489445962244468673038294038767291427745392nat);
    lemma_fundamental_div_mod_converse(11152175547161498904174877255232872489445962244468673038294038767291427745392int * 11152175547161498904174877255232872489445962244468673038294038767291427745392int, m, 5682092444008775092062012740743660258406494133840485289662606979718504021707int, 18622738105587907901923937611693869596001255428747300953312662519619235522483int);
    lemma_fundamental_div_mod_converse(18622738105587907901923937611693869596001255428747300953312662519619235522483int * 3, m, 2int, 12091728573085173261279001344567058610611143971646255534559911769567254150283int);
    assert(mod_pow(3, 11219947838245311776678090609nat, 21888242871839275222246405745257275088696311157297823662689037894645226208583nat) == 12091728573085173261279001344567058610611143971646255534559911769567254150283nat);
    lemma_fundamental_div_mod_converse(12091728573085173261279001344567058610611143971646255534559911769567254150283int * 12091728573085173261279001344567058610611143971646255534559911769567254150283int, m, 6679837241447711563897659140360894793783771219290912650632976524610728087463int, 15994778719377518754172074182914070656996097967198224336092635504390043685160int);
    assert(mod_pow(3, 22439895676490623553356181218nat, 21888242871839275222246405745257275088696311157297823662689037894645226208583nat) == 15994778719377518754172074182914070656996097967198224336092635504390043685160nat);
    lemma_fundamental_div_mod_converse(15994778719377518754172074182914070656996097967198224336092635504390043685160int * 15994778719377518754172074182914070656996097967198224336092635504390043685160int, m, 11688144534022809122648837588166528506045091043280008732714311005478882020733int, 1080031645086395266302607332092887010786786031027068529181674800074015674261int);
    lemma_fundamental_div_mod_converse(1080031645086395266302607332092887010786786031027068529181674800074015674261int * 3, m, 0int, 3240094935259185798907821996278661032360358093081205587545024400222047022783int);
    assert(mod_pow(3, 44879791352981247106712362437nat, 21888242871839275222246405745257275088696311157297823662689037894645226208583nat) == 3240094935259185798907821996278661032360358093081205587545024400222047022783nat);
    lemma_fundamental_div_mod_converse(3240094935259185798907821996278661032360358093081205587545024400222047022783int * 3240094935259185798907821996278661032360358093081205587545024400222047022783int, m, 479628047393374862992483017138582576669446926299529896916296730574956529113int, 17523878264622008820199724349908151473709948279538177478037627735171871088210int);
    assert(mod_pow(3, 89759582705962494213424724874nat, 21888242871839275222246405745257275088696311157297823662689037894645226208583nat) == 17523878264622008820199724349908151473709948279538177478037627735171871088210nat);
    lemma_fundamental_div_mod_converse(17523878264622008820199724349908151473709948279538177478037627735171871088210int * 17523878264622008820199724349908151473709948279538177478037627735171871088210int, m, 14029737847453221273014046587061480394316438819790102977454916604808282906910int, 19110442863982670415128703545403731871060617751064933225830904502504368995570int);
    lemma_fundamental_div_mod_converse(19110442863982670415128703545403731871060617751064933225830904502504368995570int * 3, m, 2int, 13554842848269460800893299145696645435789230938599152352114637718222654569544int);
    assert(mod_pow(3, 179519165411924988426849449749nat, 21888242871839275222246405745257275088696311157297823662689037894645226208583nat) == 13554842848269460800893299145696645435789230938599152352114637718222654569544nat);
    lemma_fundamental_div_mod_converse(13554842848269460800893299145696645435789230938599152352114637718222654569544int * 13554842848269460800893299145696645435789230938599152352114637718222654569544int, m, 8394176075123317957661828634031089355652860517422676885442497461915838771395int, 15519844158020186386209211461292838665631277401958918145052650489315208484651int);
    lemma_fundamental_div_mod_converse(15519844158020186386209211461292838665631277401958918145052650489315208484651int * 3, m, 2int, 2783046730382008714134822893363965819501209891281107109779875678655173036787int);
    assert(mod_pow(3, 359038330823849976853698899499nat, 21888242871839275222246405745257275088696311157297823662689037894645226208583nat) == 2783046730382008714134822893363965819501209891281107109779875678655173036787nat);
    lemma_fundamental_div_mod_converse(2783046730382008714134822893363965819501209891281107109779875678655173036787int * 2783046730382008714134822893363965819501209891281107109779875678655173036787int, m, 353858879803225850982200633737355089996000334149498332580770227673686734258int, 1134108143653590265774063469671498682107942763468359537764272993747255546955int);
    lemma_fundamental_div_mod_converse(1134108143653590265774063469671498682107942763468359537764272993747255546955int * 3, m, 0int, 3402324430960770797322190409014496046323828290405078613292818981241766640865int);
    assert(mod_pow(3, 718076661647699953707397798999nat, 21888242871839275222246405745257275088696311157297823662689037894645226208583nat) == 3402324430960770797322190409014496046323828290405078613292818981241766640865nat);
    lemma_fundamental_div_mod_converse(3402324430960770797322190409014496046323828290405078613292818981241766640865int * 3402324430960770797322190409014496046323828290405078613292818981241766640865int, m, 528859790221242830327131262217149710268069697711756792497304694438011509705int, 16856418439788601342559880718208485677022322735387152240556370170472829150210int);
    assert(mod_pow(3, 1436153323295399907414795597998nat, 21888242871839275222246405745257275088696311157297823662689037894645226208583nat) == 16856418439788601342559880718208485677022322735387152240556370170472829150210nat);
    lemma_fundamental_div_mod_converse(16856418439788601342559880718208485677022322735387152240556370170472829150210int * 16856418439788601342559880718208485677022322735387152240556370170472829150210int, m, 12981345477612973784437954437924314165399030477969439014098990856097185085098int, 5206105197707023540499066086480147646250205631498099224045092039711990047966int);
    assert(mod_pow(3, 2872306646590799814829591195996nat, 21888242871839275222246405745257275088696311157297823662689037894645226208583nat) == 5206105197707023540499066086480147646250205631498099224045092039711990047966nat);
    lemma_fundamental_div_mod_converse(5206105197707023540499066086480147646250205631498099224045092039711990047966int * 5206105197707023540499066086480147646250205631498099224045092039711990047966int, m, 1238268941380517918400110683603319578809229353587569051293131290828476533256int, 1795388487284711439849215987387872712244256361663398989485476363870388600908int);
    lemma_fundamental_div_mod_converse(1795388487284711439849215987387872712244256361663398989485476363870388600908int * 3, m, 0int, 5386165461854134319547647962163618136732769084990196968456429091611165802724int);
    assert(mod_pow(3, 5744613293181599629659182391993nat, 21888242871839275222246405745257275088696311157297823662689037894645226208583nat) == 5386165461854134319547647962163618136732769084990196968456429091611165802724nat);
    lemma_fundamental_div_mod_converse(5386165461854134319547647962163618136732769084990196968456429091611165802724int * 5386165461854134319547647962163618136732769084990196968456429091611165802724int, m, 1325404627147787865055357025275284875140081904038239559240071708372259497542int, 21185367568267495112697187562672929456769853835777082522810415667234018017190int);
    assert(mod_pow(3, 11489226586363199259318364783986nat, 21888242871839275222246405745257275088696311157297823662689037894645226208583nat) == 21185367568267495112697187562672929456769853835777082522810415667234018017190nat);
    lemma_fundamental_div_mod_converse(21185367568267495112697187562672929456769853835777082522810415667234018017190int * 21185367568267495112697187562672929456769853835777082522810415667234018017190int, m, 20505062998000521770138536381334839046063173744809985597584507954393273701370int, 18204057500599998001868618552447487029606595171262924148520280597171062637390int);
    lemma_fundamental_div_mod_converse(18204057500599998001868618552447487029606595171262924148520280597171062637390int * 3, m, 2int, 10835686758121443561113044166827910911427163199193125120182766002222735495004int);
    assert(mod_pow(3, 22978453172726398518636729567973nat, 21888242871839275222246405745257275088696311157297823662689037894645226208583nat) == 10835686758121443561113044166827910911427163199193125120182766002222735495004nat);
    lemma_fundamental_div_mod_converse(10835686758121443561113044166827910911427163199193125120182766002222735495004int * 10835686758121443561113044166827910911427163199193125120182766002222735495004int, m, 5364163227153657164542402646072905490400486753595048764788047174063900005510int, 5010493375481055969723347613439695843148408234656266299358760085026799667686int);
    assert(mod_pow(3, 45956906345452797037273459135946nat, 21888242871839275222246405745257275088696311157297823662689037894645226208583nat) == 5010493375481055969723347613439695843148408234656266299358760085026799667686nat);
    lemma_fundamental_div_mod_converse(5010493375481055969723347613439695843148408234656266299358760085026799667686int * 5010493375481055969723347613439695843148408234656266299358760085026799667686int, m, 1146964788938764284040189604739788053675946019198381627636855093886813398315int, 13280328185978227148677489423173406532888901653446145280410590263686781856951int);
    lemma_fundamental_div_mod_converse(13280328185978227148677489423173406532888901653446145280410590263686781856951int * 3, m, 1int, 17952741686095406223786062524262944509970393803040612178542732896415119362270int);
    assert(mod_pow(3, 91913812690905594074546918271893nat, 21888242871839275222246405745257275088696311157297823662689037894645226208583nat) == 17952741686095406223786062524262944509970393803040612178542732896415119362270nat);
    lemma_fundamental_div_mod_converse(17952741686095406223786062524262944509970393803040612178542732896415119362270int * 17952741686095406223786062524262944509970393803040612178542732896415119362270int, m, 14724842735655586719217474525912378851740114892954741380909611121298432723592int, 21305273806254387340196980098705228315488725993796068744429691220086922562764int);
    lemma_fundamental_div_mod_converse(21305273806254387340196980098705228315488725993796068744429691220086922562764int * 3, m, 2int, 20139335675084611576098128805601134769073555666792558907910997870970315271126int);
    assert(mod_pow(3, 183827625381811188149093836543787nat, 21888242871839275222246405745257275088696311157297823662689037894645226208583nat) == 20139335675084611576098128805601134769073555666792558907910997870970315271126nat);
    lemma_fundamental_div_mod_converse(20139335675084611576098128805601134769073555666792558907910997870970315271126int * 20139335675084611576098128805601134769073555666792558907910997870970315271126int, m, 18530169087056263398689632609912245008343703704869968721801554431516919276019int, 17456580017491711621101759762599622536039701672541325896328518752114245436799int);
    lemma_fundamental_div_mod_converse(17456580017491711621101759762599622536039701672541325896328518752114245436799int * 3, m, 2int, 8593254308796584418812467797284317430726482703028330363607480467052283893231int);
    assert(mod_pow(3, 367655250763622376298187673087575nat, 21888242871839275222246405745257275088696311157297823662689037894645226208583nat) == 8593254308796584418812467797284317430726482703028330363607480467052283893231nat);
    lemma_fundamental_div_mod_converse(8593254308796584418812467797284317430726482703028330363607480467052283893231int * 8593254308796584418812467797284317430726482703028330363607480467052283893231int, m, 3373684221617280055583651419634679488352546295220905028892392701208554525931int, 1008384364678624433883050920333150284678939482321263316223415199106519353588int);
    lemma_fundamental_div_mod_converse(1008384364678624433883050920333150284678939482321263316223415199106519353588int * 3, m, 0int, 3025153094035873301649152760999450854036818446963789948670245597319558060764int);
    assert(mod_pow(3, 735310501527244752596375346175151nat, 21888242871839275222246405745257275088696311157297823662689037894645226208583nat) == 3025153094035873301649152760999450854036818446963789948670245597319558060764nat);
    lemma_fundamental_div_mod_converse(3025153094035873301649152760999450854036818446963789948670245597319558060764int * 3025153094035873301649152760999450854036818446963789948670245597319558060764int, m, 418103513193784744531283838766281188778858587162871693037697490337861326088int, 19298932335686430409083670115773851122286551991286615441460948614663448850392int);
    lemma_fundamental_div_mod_converse(19298932335686430409083670115773851122286551991286615441460948614663448850392int * 3, m, 2int, 14120311263380740782758198856807003189467033659264198999004770054699894134010int);
    assert(mod_pow(3, 1470621003054489505192750692350303nat, 21888242871839275222246405745257275088696311157297823662689037894645226208583nat) == 14120311263380740782758198856807003189467033659264198999004770054699894134010nat);
    lemma_fundamental_div_mod_converse(14120311263380740782758198856807003189467033659264198999004770054699894134010int * 14120311263380740782758198856807003189467033659264198999004770054699894134010int, m, 9109145550978747257820505585075820986170719805245289568067042534403577145698int, 371119878478230389786555253896772075353322769658883051577170978138309554166int);
    assert(mod_pow(3, 2941242006108979010385501384700606nat, 21888242871839275222246405745257275088696311157297823662689037894645226208583nat) == 371119878478230389786555253896772075353322769658883051577170978138309554166nat);
    lemma_fundamental_div_mod_converse(371119878478230389786555253896772075353322769658883051577170978138309554166int * 371119878478230389786555253896772075353322769658883051577170978138309554166int, m, 6292417578155418389513373126079913165071658069356703352435731814649130009int, 12436276040257143935836752453684624097502568040603625535323311769451169288309int);
    assert(mod_pow(3, 5882484012217958020771002769401212nat, 21888242871839275222246405745257275088696311157297823662689037894645226208583nat) == 12436276040257143935836752453684624097502568040603625535323311769451169288309nat);
    lemma_fundamental_div_mod_converse(12436276040257143935836752453684624097502568040603625535323311769451169288309int * 12436276040257143935836752453684624097502568040603625535323311769451169288309int, m, 7065937757317917740066256120224815223695333386273732602675775950198382695875int, 8015411906948041490033654828091426255799159741309816891032163147348960384356int);
    lemma_fundamental_div_mod_converse(8015411906948041490033654828091426255799159741309816891032163147348960384356int * 3, m, 1int, 2157992849004849247854558739017003678701168066631627010407451547401654944485int);
    assert(mod_pow(3, 11764968024435916041542005538802425nat, 21888242871839275222246405745257275088696311157297823662689037894645226208583nat) == 2157992849004849247854558739017003678701168066631627010407451547401654944485nat);
    lemma_fundamental_div_mod_converse(2157992849004849247854558739017003678701168066631627010407451547401654944485int * 2157992849004849247854558739017003678701168066631627010407451547401654944485int, m, 212759569766448899075977826517716889383252430859698222017014829908386914684int, 5073424202522436750368253120042467018278552367057906786057273328282022382453int);
    lemma_fundamental_div_mod_converse(5073424202522436750368253120042467018278552367057906786057273328282022382453int * 3, m, 0int, 15220272607567310251104759360127401054835657101173720358171819984846067147359int);
    assert(mod_pow(3, 23529936048871832083084011077604851nat, 21888242871839275222246405745257275088696311157297823662689037894645226208583nat) == 15220272607567310251104759360127401054835657101173720358171819984846067147359nat);
    lemma_fundamental_div_mod_converse(15220272607567310251104759360127401054835657101173720358171819984846067147359int * 15220272607567310251104759360127401054835657101173720358171819984846067147359int, m, 10583613294363890257047426619262897659003800262754070028559537268104616285966int, 17733538372593105819091880457816221511240168010894947967982125954318729028703int);
    assert(mod_pow(3, 47059872097743664166168022155209702nat, 21888242871839275222246405745257275088696311157297823662689037894645226208583nat) == 17733538372593105819091880457816221511240168010894947967982125954318729028703nat);
    lemma_fundamental_div_mod_converse(17733538372593105819091880457816221511240168010894947967982125954318729028703int * 17733538372593105819091880457816221511240168010894947967982125954318729028703int, m, 14367456769078075966421089620163468803548956967657765035048554175881009124346int, 14844939003898953148362236477995421669272414181805293562715080684159418400491int);
    assert(mod_pow(3, 94119744195487328332336044310419404nat, 21888242871839275222246405745257275088696311157297823662689037894645226208583nat) == 14844939003898953148362236477995421669272414181805293562715080684159418400491nat);
    lemma_fundamental_div_mod_converse(14844939003898953148362236477995421669272414181805293562715080684159418400491int * 14844939003898953148362236477995421669272414181805293562715080684159418400491int, m, 10068063266650079162587153726668977718197530159347281131584679231521931854602int, 11754067263585027156611317149959117730013674098155728044400218558566788592115int);
    lemma_fundamental_div_mod_converse(11754067263585027156611317149959117730013674098155728044400218558566788592115int * 3, m, 1int, 13373958918915806247587545704620078101344711137169360470511617781055139567762int);
    assert(mod_pow(3, 188239488390974656664672088620838809nat, 21888242871839275222246405745257275088696311157297823662689037894645226208583nat) == 13373958918915806247587545704620078101344711137169360470511617781055139567762nat);
    lemma_fundamental_div_mod_converse(13373958918915806247587545704620078101344711137169360470511617781055139567762int * 13373958918915806247587545704620078101344711137169360470511617781055139567762int, m, 8171637084444401149611211336596441491173199445080058414557948265645206266715int, 116998659146664554773579760849819523669350903396564957804674245468869473799int);
    assert(mod_pow(3, 376478976781949313329344177241677618nat, 21888242871839275222246405745257275088696311157297823662689037894645226208583nat) == 116998659146664554773579760849819523669350903396564957804674245468869473799nat);
    lemma_fundamental_div_mod_converse(116998659146664554773579760849819523669350903396564957804674245468869473799int * 116998659146664554773579760849819523669350903396564957804674245468869473799int, m, 625389910111461099585347190517077295495179002084523303832964477843898234int, 10237519209815978615182436761709602067079874975289893341875581010506438149979int);
    assert(mod_pow(3, 752957953563898626658688354483355236nat, 21888242871839275222246405745257275088696311157297823662689037894645226208583nat) == 10237519209815978615182436761709602067079874975289893341875581010506438149979nat);
    lemma_fundamental_div_mod_converse(10237519209815978615182436761709602067079874975289893341875581010506438149979int * 10237519209815978615182436761709602067079874975289893341875581010506438149979int, m, 4788269217635204092851471476172271205135675526234708598469623620953721746516int, 2830324548039662779945330664488823960735288010595603340391923022476428153613int);
    assert(mod_pow(3, 1505915907127797253317376708966710472nat, 21888242871839275222246405745257275088696311157297823662689037894645226208583nat) == 2830324548039662779945330664488823960735288010595603340391923022476428153613nat);
    lemma_fundamental_div_mod_converse(2830324548039662779945330664488823960735288010595603340391923022476428153613int * 2830324548039662779945330664488823960735288010595603340391923022476428153613int, m, 365983559947714381784114083237204870119890940702257280372578943467383180050int, 17579495503557489594426424280503748062111249801115502022763782838965180584619int);
    assert(mod_pow(3, 3011831814255594506634753417933420944nat, 21888242871839275222246405745257275088696311157297823662689037894645226208583nat) == 17579495503557489594426424280503748062111249801115502022763782838965180584619nat);
    lemma_fundamental_div_mod_converse(17579495503557489594426424280503748062111249801115502022763782838965180584619int * 17579495503557489594426424280503748062111249801115502022763782838965180584619int, m, 14118934259323182879959929573605518812688986117775255952567997765266882408266int, 20910107899317784136332974037528327660866613913774703161151325147503140028083int);
    assert(mod_pow(3, 6023663628511189013269506835866841888nat, 21888242871839275222246405745257275088696311157297823662689037894645226208583nat) == 20910107899317784136332974037528327660866613913774703161151325147503140028083nat);
    lemma_fundamental_div_mod_converse(20910107899317784136332974037528327660866613913774703161151325147503140028083int * 20910107899317784136332974037528327660866613913774703161151325147503140028083int, m, 19975683517457754507209149854835270913250570756370863005411554704001680891415int, 7353344911256452599963920052701378219412551651759538588500434624621864639944int);
    assert(mod_pow(3, 12047327257022378026539013671733683776nat, 21888242871839275222246405745257275088696311157297823662689037894645226208583nat) == 7353344911256452599963920052701378219412551651759538588500434624621864639944nat);
    lemma_fundamental_div_mod_converse(7353344911256452599963920052701378219412551651759538588500434624621864639944int * 7353344911256452599963920052701378219412551651759538588500434624621864639944int, m, 2470352768858759840908639791341203177730984012250815605256325371352220286339int, 8865248634315804751998739170899184810727250893354352091933523225149160875499int);
    assert(mod_pow(3, 24094654514044756053078027343467367552nat, 21888242871839275222246405745257275088696311157297823662689037894645226208583nat) == 8865248634315804751998739170899184810727250893354352091933523225149160875499nat);
    lemma_fundamental_div_mod_converse(8865248634315804751998739170899184810727250893354352091933523225149160875499int * 8865248634315804751998739170899184810727250893354352091933523225149160875499int, m, 3590632368638098911080056806468708154516548404108491575751058494843060412773int, 4418216046773772363240570399308738963416890409004089585027747525686403068342int);
    lemma_fundamental_div_mod_converse(4418216046773772363240570399308738963416890409004089585027747525686403068342int * 3, m, 0int, 13254648140321317089721711197926216890250671227012268755083242577059209205026int);
    assert(mod_pow(3, 48189309028089512106156054686934735105nat, 21888242871839275222246405745257275088696311157297823662689037894645226208583nat) == 13254648140321317089721711197926216890250671227012268755083242577059209205026nat);
    lemma_fundamental_div_mod_converse(13254648140321317089721711197926216890250671227012268755083242577059209205026int * 13254648140321317089721711197926216890250671227012268755083242577059209205026int, m, 8026487021018715095787007830126323562824438243614460117433688283966999333577int, 12181511191276277292200245813052600498604898230115391217282900430635506169285int);
    lemma_fundamental_div_mod_converse(12181511191276277292200245813052600498604898230115391217282900430635506169285int * 3, m, 1int, 14656290701989556654354331693900526407118383533048349989159663397261292299272int);
    assert(mod_pow(3, 96378618056179024212312109373869470211nat, 21888242871839275222246405745257275088696311157297823662689037894645226208583nat) == 14656290701989556654354331693900526407118383533048349989159663397261292299272nat);
    lemma_fundamental_div_mod_converse(14656290701989556654354331693900526407118383533048349989159663397261292299272int * 14656290701989556654354331693900526407118383533048349989159663397261292299272int, m, 9813800879265154580740402694239988229708109120373574375013671757078860885861int, 6139045924970392972808083075360102179500215696768881003390942172258670185021int);
    assert(mod_pow(3, 192757236112358048424624218747738940422nat, 21888242871839275222246405745257275088696311157297823662689037894645226208583nat) == 6139045924970392972808083075360102179500215696768881003390942172258670185021nat);
    lemma_fundamental_div_mod_converse(6139045924970392972808083075360102179500215696768881003390942172258670185021int * 6139045924970392972808083075360102179500215696768881003390942172258670185021int, m, 1721832359480241103066625436825607359389206697075692153837227821870502096342int, 571416585195907862956813307564454095613945116627032105629337265496319467055int);
    assert(mod_pow(3, 385514472224716096849248437495477880844nat, 21888242871839275222246405745257275088696311157297823662689037894645226208583nat) == 571416585195907862956813307564454095613945116627032105629337265496319467055nat);
    lemma_fundamental_div_mod_converse(571416585195907862956813307564454095613945116627032105629337265496319467055int * 571416585195907862956813307564454095613945116627032105629337265496319467055int, m, 14917456634083616631728061247715249750403894033699158012739923782204747593int, 7029115710118395780190388878726563839801382987791073363724970651705345182306int);
    lemma_fundamental_div_mod_converse(7029115710118395780190388878726563839801382987791073363724970651705345182306int * 3, m, 0int, 21087347130355187340571166636179691519404148963373220091174911955116035546918int);
    assert(mod_pow(3, 771028944449432193698496874990955761689nat, 21888242871839275222246405745257275088696311157297823662689037894645226208583nat) == 21087347130355187340571166636179691519404148963373220091174911955116035546918nat);
    lemma_fundamental_div_mod_converse(21087347130355187340571166636179691519404148963373220091174911955116035546918int * 21087347130355187340571166636179691519404148963373220091174911955116035546918int, m, 20315756344617574463522356184465886338380893334049991881674499095602306083049int, 11559156913371696291366447375091137181816109545441533594696995965375584689157int);
    assert(mod_pow(3, 1542057888898864387396993749981911523378nat, 21888242871839275222246405745257275088696311157297823662689037894645226208583nat) == 11559156913371696291366447375091137181816109545441533594696995965375584689157nat);
    lemma_fundamental_div_mod_converse(11559156913371696291366447375091137181816109545441533594696995965375584689157int * 11559156913371696291366447375091137181816109545441533594696995965375584689157int, m, 6104378013817289567240084026307948777913439974160209267004526834960808475711int, 20164482065758500331888359159071830331479130246607841830579342925740338143136int);
    lemma_fundamental_div_mod_converse(20164482065758500331888359159071830331479130246607841830579342925740338143136int * 3, m, 2int, 16716960453596950551172265986700940817044768425227878166359952987930562012242int);
    assert(mod_pow(3, 3084115777797728774793987499963823046757nat, 21888242871839275222246405745257275088696311157297823662689037894645226208583nat) == 16716960453596950551172265986700940817044768425227878166359952987930562012242nat);
    lemma_fundamental_div_mod_converse(16716960453596950551172265986700940817044768425227878166359952987930562012242int * 16716960453596950551172265986700940817044768425227878166359952987930562012242int, m, 12767437223874404669587091771325511266404080659571053238799011415382782573767int, 3275806641664865823651221788936209272109901026378906842139941909556231824403int);
    assert(mod_pow(3, 6168231555595457549587974999927646093514nat, 21888242871839275222246405745257275088696311157297823662689037894645226208583nat) == 3275806641664865823651221788936209272109901026378906842139941909556231824403nat);
    lemma_fundamental_div_mod_converse(3275806641664865823651221788936209272109901026378906842139941909556231824403int * 3275806641664865823651221788936209272109901026378906842139941909556231824403int, m, 490259049865610583821312393364672745960909573663486339095838820571031667004int, 18600608454789130779279899881346504949085226031896946311552414014868723611077int);
    assert(mod_pow(3, 12336463111190915099175949999855292187028nat, 21888242871839275222246405745257275088696311157297823662689037894645226208583nat) == 18600608454789130779279899881346504949085226031896946311552414014868723611077nat);
    lemma_fundamental_div_mod_converse(18600608454789130779279899881346504949085226031896946311552414014868723611077int * 18600608454789130779279899881346504949085226031896946311552414014868723611077int, m, 15806779781921337800332987322877566983421263544157716714853971594960458138153int, 7212097879294284685316665087183938731537996707412488961903654531515348732730int);
    lemma_fundamental_div_mod_converse(7212097879294284685316665087183938731537996707412488961903654531515348732730int * 3, m, 0int, 21636293637882854055949995261551816194613990122237466885710963594546046198190int);
    assert(mod_pow(3, 24672926222381830198351899999710584374057nat, 21888242871839275222246405745257275088696311157297823662689037894645226208583nat) == 21636293637882854055949995261551816194613990122237466885710963594546046198190nat);
    lemma_fundamental_div_mod_converse(21636293637882854055949995261551816194613990122237466885710963594546046198190int * 21636293637882854055949995261551816194613990122237466885710963594546046198190int, m, 21387244518698683374062576649439773183205423016080484668597516558989447671302int, 1545200964505306134091876630661300069458802059394058761107735430284884091034int);
    lemma_fundamental_div_mod_converse(1545200964505306134091876630661300069458802059394058761107735430284884091034int * 3, m, 0int, 4635602893515918402275629891983900208376406178182176283323206290854652273102int);
    assert(mod_pow(3, 49345852444763660396703799999421168748115nat, 21888242871839275222246405745257275088696311157297823662689037894645226208583nat) == 4635602893515918402275629891983900208376406178182176283323206290854652273102nat);
    lemma_fundamental_div_mod_converse(4635602893515918402275629891983900208376406178182176283323206290854652273102int * 4635602893515918402275629891983900208376406178182176283323206290854652273102int, m, 981751450410849905212273445079351400918150779904011961730539169929258410147int, 19398281568960581241291187710580352664549660898550838999854452360400407010703int);
    lemma_fundamental_div_mod_converse(19398281568960581241291187710580352664549660898550838999854452360400407010703int * 3, m, 2int, 14418358963203193279380751641226507816256360381056869674185281291910768614943int);
    assert(mod_pow(3, 98691704889527320793407599998842337496231nat, 21888242871839275222246405745257275088696311157297823662689037894645226208583nat) == 14418358963203193279380751641226507816256360381056869674185281291910768614943nat);
    lemma_fundamental_div_mod_converse(14418358963203193279380751641226507816256360381056869674185281291910768614943int * 14418358963203193279380751641226507816256360381056869674185281291910768614943int, m, 9497750751808652835280290698971832122562160865062564241163150129403923712347int, 11704476918385820184375036401294225918369139497906283816983132891765488418948int);
    lemma_fundamental_div_mod_converse(11704476918385820184375036401294225918369139497906283816983132891765488418948int * 3, m, 1int, 13225187883318185330878703458625402666411107336421027788260360780651239048261int);
    assert(mod_pow(3, 197383409779054641586815199997684674992463nat, 21888242871839275222246405745257275088696311157297823662689037894645226208583nat) == 13225187883318185330878703458625402666411107336421027788260360780651239048261nat);
    lemma_fundamental_div_mod_converse(13225187883318185330878703458625402666411107336421027788260360780651239048261int * 13225187883318185330878703458625402666411107336421027788260360780651239048261int, m, 7990846756095446085061535565410562358126491805305833066865479817657771706151int, 2059775309887562239693491940747616599737047031212325971993405761912177030088int);
    lemma_fundamental_div_mod_converse(2059775309887562239693491940747616599737047031212325971993405761912177030088int * 3, m, 0int, 6179325929662686719080475822242849799211141093636977915980217285736531090264int);
    assert(mod_pow(3, 394766819558109283173630399995369349984927nat, 21888242871839275222246405745257275088696311157297823662689037894645226208583nat) == 6179325929662686719080475822242849799211141093636977915980217285736531090264nat);
    lemma_fundamental_div_mod_converse(6179325929662686719080475822242849799211141093636977915980217285736531090264int * 6179325929662686719080475822242849799211141093636977915980217285736531090264int, m, 1744501336565853328817421355157523233788266190419404679355980361680878123575int, 20058833081545609192482841958052559764252381754197662952666273711071915945471int);
    lemma_fundamental_div_mod_converse(20058833081545609192482841958052559764252381754197662952666273711071915945471int * 3, m, 2int, 16400013500958277132955714383643129115364522947997341532620745343925295419247int);
    assert(mod_pow(3, 789533639116218566347260799990738699969855nat, 21888242871839275222246405745257275088696311157297823662689037894645226208583nat) == 16400013500958277132955714383643129115364522947997341532620745343925295419247nat);
    lemma_fundamental_div_mod_converse(16400013500958277132955714383643129115364522947997341532620745343925295419247int * 16400013500958277132955714383643129115364522947997341532620745343925295419247int, m, 12287895579669842358712389442357780258821137337554855232363723168199844313106int, 7231818957174408353033631473824571571533297813687239607970068161223181458211int);
    lemma_fundamental_div_mod_converse(7231818957174408353033631473824571571533297813687239607970068161223181458211int * 3, m, 0int, 21695456871523225059100894421473714714599893441061718823910204483669544374633int);
    assert(mod_pow(3, 1579067278232437132694521599981477399939711nat, 21888242871839275222246405745257275088696311157297823662689037894645226208583nat) == 21695456871523225059100894421473714714599893441061718823910204483669544374633nat);
    lemma_fundamental_div_mod_converse(21695456871523225059100894421473714714599893441061718823910204483669544374633int * 21695456871523225059100894421473714714599893441061718823910204483669544374633int, m, 21504368880596758071162851303173471156059329181801126790814419496382905590225int, 5450273477668490427290214659434388278944111514628674226386386536582477983514int);
    assert(mod_pow(3, 3158134556464874265389043199962954799879422nat, 21888242871839275222246405745257275088696311157297823662689037894645226208583nat) == 5450273477668490427290214659434388278944111514628674226386386536582477983514nat);
    lemma_fundamental_div_mod_converse(5450273477668490427290214659434388278944111514628674226386386536582477983514int * 5450273477668490427290214659434388278944111514628674226386386536582477983514int, m, 1357143246048074432524245227993735885101353647714906436619043170725607252124int, 5174022576172762999728580727532724854232974026142168212629405112238162007904int);
    assert(mod_pow(3, 6316269112929748530778086399925909599758844nat, 21888242871839275222246405745257275088696311157297823662689037894645226208583nat) == 5174022576172762999728580727532724854232974026142168212629405112238162007904nat);
    lemma_fundamental_div_mod_converse(5174022576172762999728580727532724854232974026142168212629405112238162007904int * 5174022576172762999728580727532724854232974026142168212629405112238162007904int, m, 1223054302508107249622780818596220528313622850068558448033926687258488224174int, 12466153528486812502951037699828422988284892973988298100416771580722371587774int);
    lemma_fundamental_div_mod_converse(12466153528486812502951037699828422988284892973988298100416771580722371587774int * 3, m, 1int, 15510217713621162286606707354227993876158367764667070638561276847521888554739int);
    assert(mod_pow(3, 12632538225859497061556172799851819199517689nat, 21888242871839275222246405745257275088696311157297823662689037894645226208583nat) == 15510217713621162286606707354227993876158367764667070638561276847521888554739nat);
    lemma_fundamental_div_mod_converse(15510217713621162286606707354227993876158367764667070638561276847521888554739int * 15510217713621162286606707354227993876158367764667070638561276847521888554739int, m, 10990688239915019474335038630498014685357164112542075287298370889898847722268int, 14605987635641329162196148897918408538486635510303721858744447622115177531877int);
    lemma_fundamental_div_mod_converse(14605987635641329162196148897918408538486635510303721858744447622115177531877int * 3, m, 2int, 41477163245437042095635203240675438067284216315518250855267077055080178465int);
    assert(mod_pow(3, 25265076451718994123112345599703638399035379nat, 21888242871839275222246405745257275088696311157297823662689037894645226208583nat) == 41477163245437042095635203240675438067284216315518250855267077055080178465nat);
    lemma_fundamental_div_mod_converse(41477163245437042095635203240675438067284216315518250855267077055080178465int * 41477163245437042095635203240675438067284216315518250855267077055080178465int, m, 78597221392402776316229987397022027144419482156769493318294186902357379int, 11912816346948902861342662297871476498751525900206042455922083014859186572268int);
    assert(mod_pow(3, 50530152903437988246224691199407276798070758nat, 21888242871839275222246405745257275088696311157297823662689037894645226208583nat) == 11912816346948902861342662297871476498751525900206042455922083014859186572268nat);
    lemma_fundamental_div_mod_converse(11912816346948902861342662297871476498751525900206042455922083014859186572268int * 11912816346948902861342662297871476498751525900206042455922083014859186572268int, m, 6483626581954489662931606829806945246379668742876096635622349189833811958879int, 19598299543425825155777103484641128382622579745710537496441098557973713805367int);
    assert(mod_pow(3, 101060305806875976492449382398814553596141516nat, 21888242871839275222246405745257275088696311157297823662689037894645226208583nat) == 19598299543425825155777103484641128382622579745710537496441098557973713805367nat);
    lemma_fundamental_div_mod_converse(19598299543425825155777103484641128382622579745710537496441098557973713805367int * 19598299543425825155777103484641128382622579745710537496441098557973713805367int, m, 17547929600507463422758169640074850416044335750267957831075016639362592138825int, 4706685198537469643351322943926586889952516870400008832346487517228415469714int);
    assert(mod_pow(3, 202120611613751952984898764797629107192283032nat, 21888242871839275222246405745257275088696311157297823662689037894645226208583nat) == 4706685198537469643351322943926586889952516870400008832346487517228415469714nat);
    lemma_fundamental_div_mod_converse(4706685198537469643351322943926586889952516870400008832346487517228415469714int * 4706685198537469643351322943926586889952516870400008832346487517228415469714int, m, 1012090631844774793105221601179266822372706468301987633182440123885846611429int, 10923345106703976934607334771276242356410916133430253028006630367235545546689int);
    assert(mod_pow(3, 404241223227503905969797529595258214384566064nat, 21888242871839275222246405745257275088696311157297823662689037894645226208583nat) == 10923345106703976934607334771276242356410916133430253028006630367235545546689nat);
    lemma_fundamental_div_mod_converse(10923345106703976934607334771276242356410916133430253028006630367235545546689int * 10923345106703976934607334771276242356410916133430253028006630367235545546689int, m, 5451304109644469997853981715589894152426501490751766177259322595496593589912int, 15153060425205942745153720175503872664862228744520383084974956852479002248025int);
    assert(mod_pow(3, 808482446455007811939595059190516428769132128nat, 21888242871839275222246405745257275088696311157297823662689037894645226208583nat) == 15153060425205942745153720175503872664862228744520383084974956852479002248025nat);
    lemma_fundamental_div_mod_converse(15153060425205942745153720175503872664862228744520383084974956852479002248025int * 15153060425205942745153720175503872664862228744520383084974956852479002248025int, m, 10490345963099589498712928210567993092753073101107716317750388494000605265430int, 5943230447310221103978659643971479546480579883669606863681606672418357214935int);
    lemma_fundamental_div_mod_converse(5943230447310221103978659643971479546480579883669606863681606672418357214935int * 3, m, 0int, 17829691341930663311935978931914438639441739651008820591044820017255071644805int);
    assert(mod_pow(3, 1616964892910015623879190118381032857538264257nat, 21888242871839275222246405745257275088696311157297823662689037894645226208583nat) == 17829691341930663311935978931914438639441739651008820591044820017255071644805nat);
    lemma_fundamental_div_mod_converse(17829691341930663311935978931914438639441739651008820591044820017255071644805int * 17829691341930663311935978931914438639441739651008820591044820017255071644805int, m, 14523682655107719381175672525346602682905277970072003342455192119303397654118int, 21652679958884208456051837260915094351933219030280303032818644424994526593231int);
    lemma_fundamental_div_mod_converse(21652679958884208456051837260915094351933219030280303032818644424994526593231int * 3, m, 2int, 21181554132974074923662700292230732878407034776245261773077857485693127362527int);
    assert(mod_pow(3, 3233929785820031247758380236762065715076528515nat, 21888242871839275222246405745257275088696311157297823662689037894645226208583nat) == 21181554132974074923662700292230732878407034776245261773077857485693127362527nat);
    lemma_fundamental_div_mod_converse(21181554132974074923662700292230732878407034776245261773077857485693127362527int * 21181554132974074923662700292230732878407034776245261773077857485693127362527int, m, 20497681705886985015814015419256263824944203270587364761367299406404176191158int, 7143541007559364559984781779447688420306864630474689456093655503241095516615int);
    lemma_fundamental_div_mod_converse(7143541007559364559984781779447688420306864630474689456093655503241095516615int * 3, m, 0int, 21430623022678093679954345338343065260920593891424068368280966509723286549845int);
    assert(mod_pow(3, 6467859571640062495516760473524131430153057031nat, 21888242871839275222246405745257275088696311157297823662689037894645226208583nat) == 21430623022678093679954345338343065260920593891424068368280966509723286549845nat);
    lemma_fundamental_div_mod_converse(21430623022678093679954345338343065260920593891424068368280966509723286549845int * 21430623022678093679954345338343065260920593891424068368280966509723286549845int, m, 20982570680948754941760268346761003886780771437151240241823175066318737612957int, 10687207186636449896314676660891337013978454920016279627974669819642864114094int);
    assert(mod_pow(3, 12935719143280124991033520947048262860306114062nat, 21888242871839275222246405745257275088696311157297823662689037894645226208583nat) == 10687207186636449896314676660891337013978454920016279627974669819642864114094nat);
    lemma_fundamental_div_mod_converse(10687207186636449896314676660891337013978454920016279627974669819642864114094int * 10687207186636449896314676660891337013978454920016279627974669819642864114094int, m, 5218162011398411822996134252512854180074378359860028322264080137363987473724int, 15704759023401415582175688039270387999524270604350775595854156392222593667744int);
    lemma_fundamental_div_mod_converse(15704759023401415582175688039270387999524270604350775595854156392222593667744int * 3, m, 2int, 3337791326525696302034252627296613821180189498456679462184393387377328586066int);
    assert(mod_pow(3, 25871438286560249982067041894096525720612228125nat, 21888242871839275222246405745257275088696311157297823662689037894645226208583nat) == 3337791326525696302034252627296613821180189498456679462184393387377328586066nat);
    lemma_fundamental_div_mod_converse(3337791326525696302034252627296613821180189498456679462184393387377328586066int * 3337791326525696302034252627296613821180189498456679462184393387377328586066int, m, 508987907556692719737018192459897957083601798226717086898124135585206098986int, 1581899300505634717996804801673920353624744612963659407842614269182188559518int);
    assert(mod_pow(3, 51742876573120499964134083788193051441224456250nat, 21888242871839275222246405745257275088696311157297823662689037894645226208583nat) == 1581899300505634717996804801673920353624744612963659407842614269182188559518nat);
    lemma_fundamental_div_mod_converse(1581899300505634717996804801673920353624744612963659407842614269182188559518int * 1581899300505634717996804801673920353624744612963659407842614269182188559518int, m, 114326463370878092867224975836998448663623289251766774142230929280682508079int, 13855021941721397516530228101080614231895150710412972449634076166863391750267int);
    lemma_fundamental_div_mod_converse(13855021941721397516530228101080614231895150710412972449634076166863391750267int * 3, m, 1int, 19676822953324917327344278557984567606989140973941093686213190605944949042218int);
    assert(mod_pow(3, 103485753146240999928268167576386102882448912501nat, 21888242871839275222246405745257275088696311157297823662689037894645226208583nat) == 19676822953324917327344278557984567606989140973941093686213190605944949042218nat);
    lemma_fundamental_div_mod_converse(19676822953324917327344278557984567606989140973941093686213190605944949042218int * 19676822953324917327344278557984567606989140973941093686213190605944949042218int, m, 17688827915676344044616870024590535743682609293500918289600674230512678289838int, 10827595354719292039142335273611692909077093463487846278477109731726429079970int);
    lemma_fundamental_div_mod_converse(10827595354719292039142335273611692909077093463487846278477109731726429079970int * 3, m, 1int, 10594543192318600895180600075577803638534969233165715172742291300534061031327int);
    assert(mod_pow(3, 206971506292481999856536335152772205764897825003nat, 21888242871839275222246405745257275088696311157297823662689037894645226208583nat) == 10594543192318600895180600075577803638534969233165715172742291300534061031327nat);
    lemma_fundamental_div_mod_converse(10594543192318600895180600075577803638534969233165715172742291300534061031327int * 10594543192318600895180600075577803638534969233165715172742291300534061031327int, m, 5128065606322125333139667154548006937720982458360381227732373324534745196976int, 6512480393874472044530298719027300809423847140501159958501430943264878535921int);
    assert(mod_pow(3, 413943012584963999713072670305544411529795650006nat, 21888242871839275222246405745257275088696311157297823662689037894645226208583nat) == 6512480393874472044530298719027300809423847140501159958501430943264878535921nat);
    lemma_fundamental_div_mod_converse(6512480393874472044530298719027300809423847140501159958501430943264878535921int * 6512480393874472044530298719027300809423847140501159958501430943264878535921int, m, 1937679562902048177498411728751613079588859051416665764167489706088582939903int, 9697334940385248108295242578702186868343300951324188211504380458904055530792int);
    lemma_fundamental_div_mod_converse(9697334940385248108295242578702186868343300951324188211504380458904055530792int * 3, m, 1int, 7203761949316469102639321990849285516333591696674740971824103482066940383793int);
    assert(mod_pow(3, 827886025169927999426145340611088823059591300013nat, 21888242871839275222246405745257275088696311157297823662689037894645226208583nat) == 7203761949316469102639321990849285516333591696674740971824103482066940383793nat);
    lemma_fundamental_div_mod_converse(7203761949316469102639321990849285516333591696674740971824103482066940383793int * 7203761949316469102639321990849285516333591696674740971824103482066940383793int, m, 2370870358405299057017520981297473328943929492737012396947563549582642926720int, 14352940084789036723856307448562096830890133983176555573132994122105833029089int);
    lemma_fundamental_div_mod_converse(14352940084789036723856307448562096830890133983176555573132994122105833029089int * 3, m, 1int, 21170577382527834949322516600429015403974090792231843056709944471672272878684int);
    assert(mod_pow(3, 1655772050339855998852290681222177646119182600027nat, 21888242871839275222246405745257275088696311157297823662689037894645226208583nat) == 21170577382527834949322516600429015403974090792231843056709944471672272878684nat);
    lemma_fundamental_div_mod_converse(21170577382527834949322516600429015403974090792231843056709944471672272878684int * 21170577382527834949322516600429015403974090792231843056709944471672272878684int, m, 20476442505406890245431719057409737351274554216909643314554563713719292516425int, 17798422392704858071680884480814965710993994287291026989620194878044178096081int);
    lemma_fundamental_div_mod_converse(17798422392704858071680884480814965710993994287291026989620194878044178096081int * 3, m, 2int, 9618781434436023770549841951930346955589360547277433643482508844842081871077int);
    assert(mod_pow(3, 3311544100679711997704581362444355292238365200055nat, 21888242871839275222246405745257275088696311157297823662689037894645226208583nat) == 9618781434436023770549841951930346955589360547277433643482508844842081871077nat);
    lemma_fundamental_div_mod_converse(9618781434436023770549841951930346955589360547277433643482508844842081871077int * 9618781434436023770549841951930346955589360547277433643482508844842081871077int, m, 4226970471096411449926051631212153934149029208480957167402367127899643211154int, 8893701640953337185882076009407150118027136865166215797475188645210533005147int);
    assert(mod_pow(3, 6623088201359423995409162724888710584476730400110nat, 21888242871839275222246405745257275088696311157297823662689037894645226208583nat) == 8893701640953337185882076009407150118027136865166215797475188645210533005147nat);
    lemma_fundamental_div_mod_converse(8893701640953337185882076009407150118027136865166215797475188645210533005147int * 8893701640953337185882076009407150118027136865166215797475188645210533005147int, m, 3613717617326925307196617739252330676498109393996407420239008456116553099930int, 1940337092067750324816180376548290556148961954520110255187417851797305792419int);
    assert(mod_pow(3, 13246176402718847990818325449777421168953460800220nat, 21888242871839275222246405745257275088696311157297823662689037894645226208583nat) == 1940337092067750324816180376548290556148961954520110255187417851797305792419nat);
    lemma_fundamental_div_mod_converse(1940337092067750324816180376548290556148961954520110255187417851797305792419int * 1940337092067750324816180376548290556148961954520110255187417851797305792419int, m, 172005950998366600120155315813764331636303856330453063093761495976968248570int, 2932881239527145739007806904094620771014586914633239606907927667094506395251int);
    assert(mod_pow(3, 26492352805437695981636650899554842337906921600440nat, 21888242871839275222246405745257275088696311157297823662689037894645226208583nat) == 2932881239527145739007806904094620771014586914633239606907927667094506395251nat);
    lemma_fundamental_div_mod_converse(2932881239527145739007806904094620771014586914633239606907927667094506395251int * 2932881239527145739007806904094620771014586914633239606907927667094506395251int, m, 392986884124768292967545622516939684359993185351073688691834506106540947514int, 8877096691357306674481670032090282824349412623488643320745205440039616040339int);
    assert(mod_pow(3, 52984705610875391963273301799109684675813843200880nat, 21888242871839275222246405745257275088696311157297823662689037894645226208583nat) == 8877096691357306674481670032090282824349412623488643320745205440039616040339nat);
    lemma_fundamental_div_mod_converse(8877096691357306674481670032090282824349412623488643320745205440039616040339int * 8877096691357306674481670032090282824349412623488643320745205440039616040339int, m, 3600236260585910427090662269955109827315652105245135333231353808934607432526int, 14232855112136148023417392912367629409003974399555325149759234461898300664263int);
    assert(mod_pow(3, 105969411221750783926546603598219369351627686401760nat, 21888242871839275222246405745257275088696311157297823662689037894645226208583nat) == 14232855112136148023417392912367629409003974399555325149759234461898300664263nat);
    lemma_fundamental_div_mod_converse(14232855112136148023417392912367629409003974399555325149759234461898300664263int * 14232855112136148023417392912367629409003974399555325149759234461898300664263int, m, 9254930413061417137584505036981475305343813381009523467960532658279016060749int, 18351151799401658965017833288254970429197856676688367165078716670505772124502int);
    assert(mod_pow(3, 211938822443501567853093207196438738703255372803520nat, 21888242871839275222246405745257275088696311157297823662689037894645226208583nat) == 18351151799401658965017833288254970429197856676688367165078716670505772124502nat);
    lemma_fundamental_div_mod_converse(18351151799401658965017833288254970429197856676688367165078716670505772124502int * 18351151799401658965017833288254970429197856676688367165078716670505772124502int, m, 15385646729914245824043005900552437518680426905112221436950744247062608345058int, 8570421613070172238457179013862762735211103546418455081155693642837043515190int);
    lemma_fundamental_div_mod_converse(8570421613070172238457179013862762735211103546418455081155693642837043515190int * 3, m, 1int, 3823021967371241493125131296331013116936999481957541580778043033865904336987int);
    assert(mod_pow(3, 423877644887003135706186414392877477406510745607041nat, 21888242871839275222246405745257275088696311157297823662689037894645226208583nat) == 3823021967371241493125131296331013116936999481957541580778043033865904336987nat);
    lemma_fundamental_div_mod_converse(3823021967371241493125131296331013116936999481957541580778043033865904336987int * 3823021967371241493125131296331013116936999481957541580778043033865904336987int, m, 667732766333971764975038851229434277589996834545704949901862503441355906826int, 5438601512363101117375197128053529445350179776825157562743317864844266750611int);
    assert(mod_pow(3, 847755289774006271412372828785754954813021491214082nat, 21888242871839275222246405745257275088696311157297823662689037894645226208583nat) == 5438601512363101117375197128053529445350179776825157562743317864844266750611nat);
    lemma_fundamental_div_mod_converse(5438601512363101117375197128053529445350179776825157562743317864844266750611int * 5438601512363101117375197128053529445350179776825157562743317864844266750611int, m, 1351336723713571009148122973588662376664204318324170584468536209675862880058int, 2994476232230345085240474407695885961305016915001074368619332674446249735507int);
    lemma_fundamental_div_mod_converse(2994476232230345085240474407695885961305016915001074368619332674446249735507int * 3, m, 0int, 8983428696691035255721423223087657883915050745003223105857998023338749206521int);
    assert(mod_pow(3, 1695510579548012542824745657571509909626042982428165nat, 21888242871839275222246405745257275088696311157297823662689037894645226208583nat) == 8983428696691035255721423223087657883915050745003223105857998023338749206521nat);
    lemma_fundamental_div_mod_converse(8983428696691035255721423223087657883915050745003223105857998023338749206521int * 8983428696691035255721423223087657883915050745003223105857998023338749206521int, m, 3687001812848149433482570450029245419913622937755535098313098020366128556965int, 12394479214728420826322538427172380364950228987085933116321762850115221492846int);
    lemma_fundamental_div_mod_converse(12394479214728420826322538427172380364950228987085933116321762850115221492846int * 3, m, 1int, 15295194772345987256721209536259866006154375803959975686276250655700438269955int);
    assert(mod_pow(3, 3391021159096025085649491315143019819252085964856331nat, 21888242871839275222246405745257275088696311157297823662689037894645226208583nat) == 15295194772345987256721209536259866006154375803959975686276250655700438269955nat);
    lemma_fundamental_div_mod_converse(15295194772345987256721209536259866006154375803959975686276250655700438269955int * 15295194772345987256721209536259866006154375803959975686276250655700438269955int, m, 10688065939956454900547427587640758650222327219793632605989999831849837988981int, 4103440743311501410565040317399693234595807658353668166942972040541494078102int);
    assert(mod_pow(3, 6782042318192050171298982630286039638504171929712662nat, 21888242871839275222246405745257275088696311157297823662689037894645226208583nat) == 4103440743311501410565040317399693234595807658353668166942972040541494078102nat);
    lemma_fundamental_div_mod_converse(4103440743311501410565040317399693234595807658353668166942972040541494078102int * 4103440743311501410565040317399693234595807658353668166942972040541494078102int, m, 769281756989839465070251883128422163726510424126053133349841509485563211142int, 11726368391292526177451555702085358613139398077550661386255776331995514290618int);
    lemma_fundamental_div_mod_converse(11726368391292526177451555702085358613139398077550661386255776331995514290618int * 3, m, 1int, 13290862302038303310108261360998800750721883075354160496078291101341316663271int);
    assert(mod_pow(3, 13564084636384100342597965260572079277008343859425325nat, 21888242871839275222246405745257275088696311157297823662689037894645226208583nat) == 13290862302038303310108261360998800750721883075354160496078291101341316663271nat);
    lemma_fundamental_div_mod_converse(13290862302038303310108261360998800750721883075354160496078291101341316663271int * 13290862302038303310108261360998800750721883075354160496078291101341316663271int, m, 8070406645524360826326813845227565676978251245446135165863204867987712752367int, 7002292299667306964926988130139817039423169431176754543760644430610231453480int);
    assert(mod_pow(3, 27128169272768200685195930521144158554016687718850650nat, 21888242871839275222246405745257275088696311157297823662689037894645226208583nat) == 7002292299667306964926988130139817039423169431176754543760644430610231453480nat);
    lemma_fundamental_div_mod_converse(7002292299667306964926988130139817039423169431176754543760644430610231453480int * 7002292299667306964926988130139817039423169431176754543760644430610231453480int, m, 2240111174618919114088122015840889253550580592416734921115985765037359740407int, 15205836691802091525279805407478828116699691801023152201034372106859688797119int);
    assert(mod_pow(3, 54256338545536401370391861042288317108033375437701300nat, 21888242871839275222246405745257275088696311157297823662689037894645226208583nat) == 15205836691802091525279805407478828116699691801023152201034372106859688797119nat);
    lemma_fundamental_div_mod_converse(15205836691802091525279805407478828116699691801023152201034372106859688797119int * 15205836691802091525279805407478828116699691801023152201034372106859688797119int, m, 10563546414008037996180555561688919281458336673993090443019574968484215725634int, 5773364011752827139617880332473212583084874132350800992502951192821158783539int);
    assert(mod_pow(3, 108512677091072802740783722084576634216066750875402600nat, 21888242871839275222246405745257275088696311157297823662689037894645226208583nat) == 5773364011752827139617880332473212583084874132350800992502951192821158783539nat);
    lemma_fundamental_div_mod_converse(5773364011752827139617880332473212583084874132350800992502951192821158783539int * 5773364011752827139617880332473212583084874132350800992502951192821158783539int, m, 1522814426327764130291313908024237119613433730628056066526237217919145356435int, 13427477076738657347720223822258351247516025555744980995633949889025066082916int);
    lemma_fundamental_div_mod_converse(13427477076738657347720223822258351247516025555744980995633949889025066082916int * 3, m, 1int, 18394188358376696820914265721517778653851765509937119324212811772429972040165int);
    assert(mod_pow(3, 217025354182145605481567444169153268432133501750805201nat, 21888242871839275222246405745257275088696311157297823662689037894645226208583nat) == 18394188358376696820914265721517778653851765509937119324212811772429972040165nat);
    lemma_fundamental_div_mod_converse(18394188358376696820914265721517778653851765509937119324212811772429972040165int * 18394188358376696820914265721517778653851765509937119324212811772429972040165int, m, 15457895242872434237173632055916679462999053749285456007141207820823838429536int, 5749289114645015988354320520803832788359486209946752411627897465166089319737int);
    lemma_fundamental_div_mod_converse(5749289114645015988354320520803832788359486209946752411627897465166089319737int * 3, m, 0int, 17247867343935047965062961562411498365078458629840257234883692395498267959211int);
    assert(mod_pow(3, 434050708364291210963134888338306536864267003501610403nat, 21888242871839275222246405745257275088696311157297823662689037894645226208583nat) == 17247867343935047965062961562411498365078458629840257234883692395498267959211nat);
    lemma_fundamental_div_mod_converse(17247867343935047965062961562411498365078458629840257234883692395498267959211int * 17247867343935047965062961562411498365078458629840257234883692395498267959211int, m, 13591265852441766498454913148058146187586145613616023002206513754382138673635int, 6597519848191402964325492416501184111330081931460035256490797051847286933316int);
    assert(mod_pow(3, 868101416728582421926269776676613073728534007003220806nat, 21888242871839275222246405745257275088696311157297823662689037894645226208583nat) == 6597519848191402964325492416501184111330081931460035256490797051847286933316nat);
    lemma_fundamental_div_mod_converse(6597519848191402964325492416501184111330081931460035256490797051847286933316int * 6597519848191402964325492416501184111330081931460035256490797051847286933316int, m, 1988614088492243790452315742043222442638142777037312709269341249900810282794int, 4838624310240297092380678300730383936435652670186923341119710177279170734954int);
    lemma_fundamental_div_mod_converse(4838624310240297092380678300730383936435652670186923341119710177279170734954int * 3, m, 0int, 14515872930720891277142034902191151809306958010560770023359130531837512204862int);
    assert(mod_pow(3, 1736202833457164843852539553353226147457068014006441613nat, 21888242871839275222246405745257275088696311157297823662689037894645226208583nat) == 14515872930720891277142034902191151809306958010560770023359130531837512204862nat);
    lemma_fundamental_div_mod_converse(14515872930720891277142034902191151809306958010560770023359130531837512204862int * 14515872930720891277142034902191151809306958010560770023359130531837512204862int, m, 9626655194507600457689484029244114446754070206075072465649575027256381525624int, 1389736335769011244521488512877030820617365852114232369266444410709873208252int);
    lemma_fundamental_div_mod_converse(1389736335769011244521488512877030820617365852114232369266444410709873208252int * 3, m, 0int, 4169209007307033733564465538631092461852097556342697107799333232129619624756int);
    assert(mod_pow(3, 3472405666914329687705079106706452294914136028012883227nat, 21888242871839275222246405745257275088696311157297823662689037894645226208583nat) == 4169209007307033733564465538631092461852097556342697107799333232129619624756nat);
    lemma_fundamental_div_mod_converse(4169209007307033733564465538631092461852097556342697107799333232129619624756int * 4169209007307033733564465538631092461852097556342697107799333232129619624756int, m, 794138837383499015301763606965180287954638094485259782652438806490177312130int, 5847064808027079537134194242895240318380729221015279727772055148840572047746int);
    assert(mod_pow(3, 6944811333828659375410158213412904589828272056025766454nat, 21888242871839275222246405745257275088696311157297823662689037894645226208583nat) == 5847064808027079537134194242895240318380729221015279727772055148840572047746nat);
    lemma_fundamental_div_mod_converse(5847064808027079537134194242895240318380729221015279727772055148840572047746int * 5847064808027079537134194242895240318380729221015279727772055148840572047746int, m, 1561942046670825668527626184321769780647854117392324992875442020731320946468int, 2261104101915500644926395094923679209199245379424156029855802669024958545672int);
    assert(mod_pow(3, 13889622667657318750820316426825809179656544112051532908nat, 21888242871839275222246405745257275088696311157297823662689037894645226208583nat) == 2261104101915500644926395094923679209199245379424156029855802669024958545672nat);
    lemma_fundamental_div_mod_converse(2261104101915500644926395094923679209199245379424156029855802669024958545672int * 2261104101915500644926395094923679209199245379424156029855802669024958545672int, m, 233577075585030284326895945391639247252707711689684339177596429731841105695int, 13668801477233767171680401064770366260825578990750966026067707788285890751399int);
    lemma_fundamental_div_mod_converse(13668801477233767171680401064770366260825578990750966026067707788285890751399int * 3, m, 1int, 19118161559862026292794797449053823693780425814955074415514085470212446045614int);
    assert(mod_pow(3, 27779245335314637501640632853651618359313088224103065817nat, 21888242871839275222246405745257275088696311157297823662689037894645226208583nat) == 19118161559862026292794797449053823693780425814955074415514085470212446045614nat);
    lemma_fundamental_div_mod_converse(19118161559862026292794797449053823693780425814955074415514085470212446045614int * 19118161559862026292794797449053823693780425814955074415514085470212446045614int, m, 16698649753161872404483921397338862121001586890666061679870563238009326803486int, 1017452179425682806021654935915771069384288305230895070119511167555281116658int);
    assert(mod_pow(3, 55558490670629275003281265707303236718626176448206131634nat, 21888242871839275222246405745257275088696311157297823662689037894645226208583nat) == 1017452179425682806021654935915771069384288305230895070119511167555281116658nat);
    lemma_fundamental_div_mod_converse(1017452179425682806021654935915771069384288305230895070119511167555281116658int * 1017452179425682806021654935915771069384288305230895070119511167555281116658int, m, 47295205169252717602062749443131542590144973372329136345454785867765624405int, 10028678625834050982725397472320392244728578173560114512131811790457639820849int);
    assert(mod_pow(3, 111116981341258550006562531414606473437252352896412263268nat, 21888242871839275222246405745257275088696311157297823662689037894645226208583nat) == 10028678625834050982725397472320392244728578173560114512131811790457639820849nat);
    lemma_fundamental_div_mod_converse(10028678625834050982725397472320392244728578173560114512131811790457639820849int * 10028678625834050982725397472320392244728578173560114512131811790457639820849int, m, 4594904925404341256428060760806572405179735495885397956467277869677691244073int, 4289636832725336928204032168175319896605843875661596029028421154586554602242int);
    assert(mod_pow(3, 222233962682517100013125062829212946874504705792824526536nat, 21888242871839275222246405745257275088696311157297823662689037894645226208583nat) == 4289636832725336928204032168175319896605843875661596029028421154586554602242nat);
    lemma_fundamental_div_mod_converse(4289636832725336928204032168175319896605843875661596029028421154586554602242int * 4289636832725336928204032168175319896605843875661596029028421154586554602242int, m, 840678909879421506135146725060648663557669282176432843488282248258132513280int, 19171771694030026035612405419347966028035653354852005825147326187615533944324int);
    lemma_fundamental_div_mod_converse(19171771694030026035612405419347966028035653354852005825147326187615533944324int * 3, m, 2int, 13738829338411527662344404767529347906714337749960370150063902773556149415806int);
    assert(mod_pow(3, 444467925365034200026250125658425893749009411585649053073nat, 21888242871839275222246405745257275088696311157297823662689037894645226208583nat) == 13738829338411527662344404767529347906714337749960370150063902773556149415806nat);
    lemma_fundamental_div_mod_converse(13738829338411527662344404767529347906714337749960370150063902773556149415806int * 13738829338411527662344404767529347906714337749960370150063902773556149415806int, m, 8623599102733099503914530550752875204366563823747779152113761044717679798380int, 20011000577604786265732615797680267097892343602974041268239565120015817134096int);
    lemma_fundamental_div_mod_converse(20011000577604786265732615797680267097892343602974041268239565120015817134096int * 3, m, 2int, 16256515989135808352705035902526251116284408494326476479340619570756998985122int);
    assert(mod_pow(3, 888935850730068400052500251316851787498018823171298106147nat, 21888242871839275222246405745257275088696311157297823662689037894645226208583nat) == 16256515989135808352705035902526251116284408494326476479340619570756998985122nat);
    lemma_fundamental_div_mod_converse(16256515989135808352705035902526251116284408494326476479340619570756998985122int * 16256515989135808352705035902526251116284408494326476479340619570756998985122int, m, 12073802070472966405314219719353012333357859972124547358338201004673483398392int, 21753315763931628303560794409702179130928812013292893380011715087673698556348int);
    assert(mod_pow(3, 1777871701460136800105000502633703574996037646342596212294nat, 21888242871839275222246405745257275088696311157297823662689037894645226208583nat) == 21753315763931628303560794409702179130928812013292893380011715087673698556348nat);
    lemma_fundamental_div_mod_converse(21753315763931628303560794409702179130928812013292893380011715087673698556348int * 21753315763931628303560794409702179130928812013292893380011715087673698556348int, m, 21619220395901637082557366372553933266311766895720941801988485437618157067665int, 1965194008274585775914049343646402802107317401692995900674045018106396328409int);
    assert(mod_pow(3, 3555743402920273600210001005267407149992075292685192424588nat, 21888242871839275222246405745257275088696311157297823662689037894645226208583nat) == 1965194008274585775914049343646402802107317401692995900674045018106396328409nat);
    lemma_fundamental_div_mod_converse(1965194008274585775914049343646402802107317401692995900674045018106396328409int * 1965194008274585775914049343646402802107317401692995900674045018106396328409int, m, 176441184099206260725968989028867640129618388301003510787518784691857332638int, 20978328691930940719092854226890292509694277494112218656512820360551578839327int);
    assert(mod_pow(3, 7111486805840547200420002010534814299984150585370384849176nat, 21888242871839275222246405745257275088696311157297823662689037894645226208583nat) == 20978328691930940719092854226890292509694277494112218656512820360551578839327nat);
    lemma_fundamental_div_mod_converse(20978328691930940719092854226890292509694277494112218656512820360551578839327int * 20978328691930940719092854226890292509694277494112218656512820360551578839327int, m, 20106240472728820025276897098811188047108057675859420610633926896381807945189int, 8430559427879041727888766561883916098278840901707315147629578218156136455742int);
    lemma_fundamental_div_mod_converse(8430559427879041727888766561883916098278840901707315147629578218156136455742int * 3, m, 1int, 3403435411797849961419893940394473206140211547824121780199696759823183158643int);
    assert(mod_pow(3, 14222973611681094400840004021069628599968301170740769698353nat, 21888242871839275222246405745257275088696311157297823662689037894645226208583nat) == 3403435411797849961419893940394473206140211547824121780199696759823183158643nat);
    lemma_fundamental_div_mod_converse(3403435411797849961419893940394473206140211547824121780199696759823183158643int * 3403435411797849961419893940394473206140211547824121780199696759823183158643int, m, 529205229953949541378693387669200695618133971190106570511611179620474885653int, 20812749130751772993852879457785886752248461550982100664981246617610853441750int);
    lemma_fundamental_div_mod_converse(20812749130751772993852879457785886752248461550982100664981246617610853441750int * 3, m, 2int, 18661761648576768537065826882843110079352762338350654669565664063542107908084int);
    assert(mod_pow(3, 28445947223362188801680008042139257199936602341481539396707nat, 21888242871839275222246405745257275088696311157297823662689037894645226208583nat) == 18661761648576768537065826882843110079352762338350654669565664063542107908084nat);
    lemma_fundamental_div_mod_converse(18661761648576768537065826882843110079352762338350654669565664063542107908084int * 18661761648576768537065826882843110079352762338350654669565664063542107908084int, m, 15910886491320543837991869052587223942899153110026037492609189730252520877202int, 8442425908215987853052148447375019093115978069312380491499721228110811126290int);
    assert(mod_pow(3, 56891894446724377603360016084278514399873204682963078793414nat, 21888242871839275222246405745257275088696311157297823662689037894645226208583nat) == 8442425908215987853052148447375019093115978069312380491499721228110811126290nat);
    lemma_fundamental_div_mod_converse(8442425908215987853052148447375019093115978069312380491499721228110811126290int * 8442425908215987853052148447375019093115978069312380491499721228110811126290int, m, 3256294058552143906225078155899285863888692248607760628175971241931963484576int, 13686797124895097430532201282734606108630267289969969619131723811884649848292int);
    assert(mod_pow(3, 113783788893448755206720032168557028799746409365926157586828nat, 21888242871839275222246405745257275088696311157297823662689037894645226208583nat) == 13686797124895097430532201282734606108630267289969969619131723811884649848292nat);
    lemma_fundamental_div_mod_converse(13686797124895097430532201282734606108630267289969969619131723811884649848292int * 13686797124895097430532201282734606108630267289969969619131723811884649848292int, m, 8558403551846893667884425313651214970947914568724648655746749231849139421354int, 8758801406869024347112143045372232229056663485920089670366868159454687035882int);
    lemma_fundamental_div_mod_converse(8758801406869024347112143045372232229056663485920089670366868159454687035882int * 3, m, 1int, 4388161348767797819090023390859421598473679300462445348411566583718834899063int);
    assert(mod_pow(3, 227567577786897510413440064337114057599492818731852315173657nat, 21888242871839275222246405745257275088696311157297823662689037894645226208583nat) == 4388161348767797819090023390859421598473679300462445348411566583718834899063nat);
    lemma_fundamental_div_mod_converse(4388161348767797819090023390859421598473679300462445348411566583718834899063int * 4388161348767797819090023390859421598473679300462445348411566583718834899063int, m, 879739873847696152606622714655931739219933281508155744853712342670100078542int, 17068672121218096857360378374750264847200320225751269136387400586088223751983int);
    assert(mod_pow(3, 455135155573795020826880128674228115198985637463704630347314nat, 21888242871839275222246405745257275088696311157297823662689037894645226208583nat) == 17068672121218096857360378374750264847200320225751269136387400586088223751983nat);
    lemma_fundamental_div_mod_converse(17068672121218096857360378374750264847200320225751269136387400586088223751983int * 17068672121218096857360378374750264847200320225751269136387400586088223751983int, m, 13310322335488894365830816446504187828003703664409966523936031402056872945031int, 13881209561440695866154891416587181115428276692203270453925311716656397031216int);
    lemma_fundamental_div_mod_converse(13881209561440695866154891416587181115428276692203270453925311716656397031216int * 3, m, 1int, 19755385812482812376218268504504268257588518919311987699086897255323964885065int);
    assert(mod_pow(3, 910270311147590041653760257348456230397971274927409260694629nat, 21888242871839275222246405745257275088696311157297823662689037894645226208583nat) == 19755385812482812376218268504504268257588518919311987699086897255323964885065nat);
    lemma_fundamental_div_mod_converse(19755385812482812376218268504504268257588518919311987699086897255323964885065int * 19755385812482812376218268504504268257588518919311987699086897255323964885065int, m, 17830360841900336972001719702742947090678128228674643938891194522034469995365int, 15148058948361900684688473775656145972922998630334264373301951849946126836430int);
    lemma_fundamental_div_mod_converse(15148058948361900684688473775656145972922998630334264373301951849946126836430int * 3, m, 2int, 1667691101407151609572609836453887741376373576407145794527779760547928092124int);
    assert(mod_pow(3, 1820540622295180083307520514696912460795942549854818521389259nat, 21888242871839275222246405745257275088696311157297823662689037894645226208583nat) == 1667691101407151609572609836453887741376373576407145794527779760547928092124nat);
    lemma_fundamental_div_mod_converse(1667691101407151609572609836453887741376373576407145794527779760547928092124int * 1667691101407151609572609836453887741376373576407145794527779760547928092124int, m, 127063356615564360729858881498126695108391919269998836384028030403109176315int, 6208619740684288575996131769271310320885049601739124264392947039903117519731int);
    lemma_fundamental_div_mod_converse(6208619740684288575996131769271310320885049601739124264392947039903117519731int * 3, m, 0int, 18625859222052865727988395307813930962655148805217372793178841119709352559193int);
    assert(mod_pow(3, 3641081244590360166615041029393824921591885099709637042778519nat, 21888242871839275222246405745257275088696311157297823662689037894645226208583nat) == 18625859222052865727988395307813930962655148805217372793178841119709352559193nat);
    lemma_fundamental_div_mod_converse(18625859222052865727988395307813930962655148805217372793178841119709352559193int * 18625859222052865727988395307813930962655148805217372793178841119709352559193int, m, 15849725068889450690736853755536993065486898818063944951726072660688704139227int, 9866230266412979211658125948873660927451553771554341103362297860802794425908int);
    lemma_fundamental_div_mod_converse(9866230266412979211658125948873660927451553771554341103362297860802794425908int * 3, m, 1int, 7710447927399662412727972101363707693658350157365199647397855687763157069141int);
    assert(mod_pow(3, 7282162489180720333230082058787649843183770199419274085557039nat, 21888242871839275222246405745257275088696311157297823662689037894645226208583nat) == 7710447927399662412727972101363707693658350157365199647397855687763157069141nat);
    lemma_fundamental_div_mod_converse(7710447927399662412727972101363707693658350157365199647397855687763157069141int * 7710447927399662412727972101363707693658350157365199647397855687763157069141int, m, 2716116025815372582512264408213576629291851320689001661320759780965983355612int, 3825098064954660179590785117460258671053310429691694264866290950066478860085int);
    lemma_fundamental_div_mod_converse(3825098064954660179590785117460258671053310429691694264866290950066478860085int * 3, m, 0int, 11475294194863980538772355352380776013159931289075082794598872850199436580255int);
    assert(mod_pow(3, 14564324978361440666460164117575299686367540398838548171114079nat, 21888242871839275222246405745257275088696311157297823662689037894645226208583nat) == 11475294194863980538772355352380776013159931289075082794598872850199436580255nat);
    lemma_fundamental_div_mod_converse(11475294194863980538772355352380776013159931289075082794598872850199436580255int * 11475294194863980538772355352380776013159931289075082794598872850199436580255int, m, 6016123707586293978655062936518916638297584396342307768178326838129464147397int, 15795296767500474023100772833728161794486793347600565719103129599412077356574int);
    assert(mod_pow(3, 29128649956722881332920328235150599372735080797677096342228158nat, 21888242871839275222246405745257275088696311157297823662689037894645226208583nat) == 15795296767500474023100772833728161794486793347600565719103129599412077356574nat);
    lemma_fundamental_div_mod_converse(15795296767500474023100772833728161794486793347600565719103129599412077356574int * 15795296767500474023100772833728161794486793347600565719103129599412077356574int, m, 11398420669682841974827912761398500557816016665879394882927854707730292036627int, 11523436411772521037269195274009930492271716776874859275578159782818963247935int);
    assert(mod_pow(3, 58257299913445762665840656470301198745470161595354192684456316nat, 21888242871839275222246405745257275088696311157297823662689037894645226208583nat) == 11523436411772521037269195274009930492271716776874859275578159782818963247935nat);
    lemma_fundamental_div_mod_converse(11523436411772521037269195274009930492271716776874859275578159782818963247935int * 11523436411772521037269195274009930492271716776874859275578159782818963247935int, m, 6066708392888296226778193563826092214258481015958629961852021453255842637774int, 169908326656953016818619935231072758305085214726254811076987588452442949983int);
    assert(mod_pow(3, 116514599826891525331681312940602397490940323190708385368912632nat, 21888242871839275222246405745257275088696311157297823662689037894645226208583nat) == 169908326656953016818619935231072758305085214726254811076987588452442949983nat);
    lemma_fundamental_div_mod_converse(169908326656953016818619935231072758305085214726254811076987588452442949983int * 169908326656953016818619935231072758305085214726254811076987588452442949983int, m, 1318919916797322817950702730746009245539990864898683022079998425541641011int, 12123353325681727611152314132025368631118570330284443212141931705603846702876int);
    lemma_fundamental_div_mod_converse(12123353325681727611152314132025368631118570330284443212141931705603846702876int * 3, m, 1int, 14481817105205907611210536650818830804659399833555505973736757222166313900045int);
    assert(mod_pow(3, 233029199653783050663362625881204794981880646381416770737825265nat, 21888242871839275222246405745257275088696311157297823662689037894645226208583nat) == 14481817105205907611210536650818830804659399833555505973736757222166313900045nat);
    lemma_fundamental_div_mod_converse(14481817105205907611210536650818830804659399833555505973736757222166313900045int * 14481817105205907611210536650818830804659399833555505973736757222166313900045int, m, 9581537809892335531840122148657816537412871405139921901641570477570866972768int, 1128654811654341606940778210664528042096880272529741400886856200826902134281int);
    lemma_fundamental_div_mod_converse(1128654811654341606940778210664528042096880272529741400886856200826902134281int * 3, m, 0int, 3385964434963024820822334631993584126290640817589224202660568602480706402843int);
    assert(mod_pow(3, 466058399307566101326725251762409589963761292762833541475650531nat, 21888242871839275222246405745257275088696311157297823662689037894645226208583nat) == 3385964434963024820822334631993584126290640817589224202660568602480706402843nat);
    lemma_fundamental_div_mod_converse(3385964434963024820822334631993584126290640817589224202660568602480706402843int * 3385964434963024820822334631993584126290640817589224202660568602480706402843int, m, 523785998810560956293101570507684580275853838160427094831264478608369226936int, 19520791749107278126981216397562879926030533898758411601385419533770600490961int);
    lemma_fundamental_div_mod_converse(19520791749107278126981216397562879926030533898758411601385419533770600490961int * 3, m, 2int, 14785889503643283936450837702174089600698979381679587478778182812021349055717int);
    assert(mod_pow(3, 932116798615132202653450503524819179927522585525667082951301063nat, 21888242871839275222246405745257275088696311157297823662689037894645226208583nat) == 14785889503643283936450837702174089600698979381679587478778182812021349055717nat);
    lemma_fundamental_div_mod_converse(14785889503643283936450837702174089600698979381679587478778182812021349055717int * 14785889503643283936450837702174089600698979381679587478778182812021349055717int, m, 9988126031588470065695718443200037243360443894775889918737705611292466849443int, 11134380789819647399649595989714171972779973934686646785592725930685595014820int);
    lemma_fundamental_div_mod_converse(11134380789819647399649595989714171972779973934686646785592725930685595014820int * 3, m, 1int, 11514899497619666976702382223885240829643610646762116694089139897411558835877int);
    assert(mod_pow(3, 1864233597230264405306901007049638359855045171051334165902602127nat, 21888242871839275222246405745257275088696311157297823662689037894645226208583nat) == 11514899497619666976702382223885240829643610646762116694089139897411558835877nat);
    lemma_fundamental_div_mod_converse(11514899497619666976702382223885240829643610646762116694089139897411558835877int * 11514899497619666976702382223885240829643610646762116694089139897411558835877int, m, 6057722916208661351674900343583227581673868594045053537731926875898565171990int, 2215395347946015259525413830102520700652359899788252647643488453592413168959int);
    lemma_fundamental_div_mod_converse(2215395347946015259525413830102520700652359899788252647643488453592413168959int * 3, m, 0int, 6646186043838045778576241490307562101957079699364757942930465360777239506877int);
    assert(mod_pow(3, 3728467194460528810613802014099276719710090342102668331805204255nat, 21888242871839275222246405745257275088696311157297823662689037894645226208583nat) == 6646186043838045778576241490307562101957079699364757942930465360777239506877nat);
    lemma_fundamental_div_mod_converse(6646186043838045778576241490307562101957079699364757942930465360777239506877int * 6646186043838045778576241490307562101957079699364757942930465360777239506877int, m, 2018060069414601039693240236914799388104188835602809269983641994229982283666int, 7711944069942976333191670627327974898632713383467810363597941653328940387851int);
    assert(mod_pow(3, 7456934388921057621227604028198553439420180684205336663610408510nat, 21888242871839275222246405745257275088696311157297823662689037894645226208583nat) == 7711944069942976333191670627327974898632713383467810363597941653328940387851nat);
    lemma_fundamental_div_mod_converse(7711944069942976333191670627327974898632713383467810363597941653328940387851int * 7711944069942976333191670627327974898632713383467810363597941653328940387851int, m, 2717170203481528456373946880493945424338704321550972535947432489822428612267int, 1284841686600525344710399541585381843572296145539679517104300057351733910540int);
    assert(mod_pow(3, 14913868777842115242455208056397106878840361368410673327220817020nat, 21888242871839275222246405745257275088696311157297823662689037894645226208583nat) == 1284841686600525344710399541585381843572296145539679517104300057351733910540nat);
    lemma_fundamental_div_mod_converse(1284841686600525344710399541585381843572296145539679517104300057351733910540int * 1284841686600525344710399541585381843572296145539679517104300057351733910540int, m, 75420314425986807115036450667758388884702411916660123837770349213107688465int, 1510289167801623794704494185021804965319487331558241839865481358601649996505int);
    assert(mod_pow(3, 29827737555684230484910416112794213757680722736821346654441634040nat, 21888242871839275222246405745257275088696311157297823662689037894645226208583nat) == 1510289167801623794704494185021804965319487331558241839865481358601649996505nat);
    lemma_fundamental_div_mod_converse(1510289167801623794704494185021804965319487331558241839865481358601649996505int * 1510289167801623794704494185021804965319487331558241839865481358601649996505int, m, 104209980843804960953865581859111464769440902914960254299803398011180730914int, 9445773979519039064419544328395401318641317909235905532250505107639551980163int);
    assert(mod_pow(3, 59655475111368460969820832225588427515361445473642693308883268080nat, 21888242871839275222246405745257275088696311157297823662689037894645226208583nat) == 9445773979519039064419544328395401318641317909235905532250505107639551980163nat);
    lemma_fundamental_div_mod_converse(9445773979519039064419544328395401318641317909235905532250505107639551980163int * 9445773979519039064419544328395401318641317909235905532250505107639551980163int, m, 4076281800900061910887286962783583868006994553845776380565294853852795476400int, 17704756708524829021549354876171059230555851685067164592312103379109091565369int);
    lemma_fundamental_div_mod_converse(17704756708524829021549354876171059230555851685067164592312103379109091565369int * 3, m, 2int, 9337784381895936620155253137998627514274932740605846451558234348036822278941int);
    assert(mod_pow(3, 119310950222736921939641664451176855030722890947285386617766536161nat, 21888242871839275222246405745257275088696311157297823662689037894645226208583nat) == 9337784381895936620155253137998627514274932740605846451558234348036822278941nat);
    lemma_fundamental_div_mod_converse(9337784381895936620155253137998627514274932740605846451558234348036822278941int * 9337784381895936620155253137998627514274932740605846451558234348036822278941int, m, 3983609724787959850337848953237474830714873822395430027836996891967268042473int, 16834432999611724685161998540526587522611764657681864550468732119054810935722int);
    assert(mod_pow(3, 238621900445473843879283328902353710061445781894570773235533072322nat, 21888242871839275222246405745257275088696311157297823662689037894645226208583nat) == 16834432999611724685161998540526587522611764657681864550468732119054810935722nat);
    lemma_fundamental_div_mod_converse(16834432999611724685161998540526587522611764657681864550468732119054810935722int * 16834432999611724685161998540526587522611764657681864550468732119054810935722int, m, 12947505018003401991867500420090460083624720264723167990993320566943194792901int, 1399415713218529853856553325598041091301268103196660613151139859981101992001int);
    lemma_fundamental_div_mod_converse(1399415713218529853856553325598041091301268103196660613151139859981101992001int * 3, m, 0int, 4198247139655589561569659976794123273903804309589981839453419579943305976003int);
    assert(mod_pow(3, 477243800890947687758566657804707420122891563789141546471066144645nat, 21888242871839275222246405745257275088696311157297823662689037894645226208583nat) == 4198247139655589561569659976794123273903804309589981839453419579943305976003nat);
    lemma_fundamental_div_mod_converse(4198247139655589561569659976794123273903804309589981839453419579943305976003int * 4198247139655589561569659976794123273903804309589981839453419579943305976003int, m, 805239559375616620903009528387040714736713468188478456244450432967153700790int, 4316488333455909374726988975763097958619894252454193894237780243223499975439int);
    lemma_fundamental_div_mod_converse(4316488333455909374726988975763097958619894252454193894237780243223499975439int * 3, m, 0int, 12949465000367728124180966927289293875859682757362581682713340729670499926317int);
    assert(mod_pow(3, 954487601781895375517133315609414840245783127578283092942132289291nat, 21888242871839275222246405745257275088696311157297823662689037894645226208583nat) == 12949465000367728124180966927289293875859682757362581682713340729670499926317nat);
    lemma_fundamental_div_mod_converse(12949465000367728124180966927289293875859682757362581682713340729670499926317int * 12949465000367728124180966927289293875859682757362581682713340729670499926317int, m, 7661128614919185649161503933581966308555615053632859195866031687185459152383int, 5730636994510773491206367835236806183028292339446643256980404715002489681200int);
    assert(mod_pow(3, 1908975203563790751034266631218829680491566255156566185884264578582nat, 21888242871839275222246405745257275088696311157297823662689037894645226208583nat) == 5730636994510773491206367835236806183028292339446643256980404715002489681200nat);
}

#[verifier::rlimit(100)]
pub proof fn lemma_pow_base_modulus_by_p134276_41_digits()
    ensures
        mod_pow(3, 1630082690626329392154177744477557478nat, 21888242871839275222246405745257275088696311157297823662689037894645226208583nat) == 3079850386165776373304302593529140662833478451685277064343379560295587684005nat,
{
    let m = 21888242871839275222246405745257275088696311157297823662689037894645226208583int;
    lemma_fundamental_div_mod_converse(1, m, 0, 1);
    assert(mod_pow(3, 0, 21888242871839275222246405745257275088696311157297823662689037894645226208583nat) == 1);
    lemma_fundamental_div_mod_converse(1int * 1int, m, 0int, 1int);
    lemma_fundamental_div_mod_converse(1int * 3, m, 0int, 3int);
    assert(mod_pow(3, 1, 21888242871839275222246405745257275088696311157297823662689037894645226208583nat) == 3);
    lemma_fundamental_div_mod_converse(3int * 3int, m, 0int, 9int);
    assert(mod_pow(3, 2, 21888242871839275222246405745257275088696311157297823662689037894645226208583nat) == 9);
    lemma_fundamental_div_mod_converse(9int * 9int, m, 0int, 81int);
    assert(mod_pow(3, 4, 21888242871839275222246405745257275088696311157297823662689037894645226208583nat) == 81);
    lemma_fundamental_div_mod_converse(81int * 81int, m, 0int, 6561int);
    lemma_fundamental_div_mod_converse(6561int * 3, m, 0int, 19683int);
    assert(mod_pow(3, 9, 21888242871839275222246405745257275088696311157297823662689037894645226208583nat) == 19683);
    lemma_fundamental_div_mod_converse(19683int * 19683int, m, 0int, 387420489int);
    lemma_fundamental_div_mod_converse(387420489int * 3, m, 0int, 1162261467int);
    assert(mod_pow(3, 19, 21888242871839275222246405745257275088696311157297823662689037894645226208583nat) == 1162261467);
    lemma_fundamental_div_mod_converse(1162261467int * 1162261467int, m, 0int, 1350851717672992089int);
    lemma_fundamental_div_mod_converse(1350851717672992089int * 3, m, 0int, 4052555153018976267int);
    assert(mod_pow(3, 39, 21888242871839275222246405745257275088696311157297823662689037894645226208583nat) == 4052555153018976267);
    lemma_fundamental_div_mod_converse(4052555153018976267int * 4052555153018976267int, m, 0int, 16423203268260658146231467800709255289int);
    assert(mod_pow(3, 78, 21888242871839275222246405745257275088696311157297823662689037894645226208583nat) == 16423203268260658146231467800709255289nat);
    lemma_fundamental_div_mod_converse(16423203268260658146231467800709255289int * 16423203268260658146231467800709255289int, m, 0int, 269721605590607563262106870407286853611938890184108047911269431464974473521int);
    assert(mod_pow(3, 156, 21888242871839275222246405745257275088696311157297823662689037894645226208583nat) == 269721605590607563262106870407286853611938890184108047911269431464974473521nat);
    lemma_fundamental_div_mod_converse(269721605590607563262106870407286853611938890184108047911269431464974473521int * 269721605590607563262106870407286853611938890184108047911269431464974473521int, m, 3323690482984031489478697343567728885429478423807014916548834674822264552int, 11141139370626108770898660730299597205802887988119987864590347193849971087625int);
    lemma_fundamental_div_mod_converse(11141139370626108770898660730299597205802887988119987864590347193849971087625int * 3, m, 1int, 11535175240039051090449576445641516528712352807062139931082003686904687054292int);
    assert(mod_pow(3, 313, 21888242871839275222246405745257275088696311157297823662689037894645226208583nat) == 11535175240039051090449576445641516528712352807062139931082003686904687054292nat);
    lemma_fundamental_div_mod_converse(11535175240039051090449576445641516528712352807062139931082003686904687054292int * 11535175240039051090449576445641516528712352807062139931082003686904687054292int, m, 6079074898680018534899288458852097350267477997060869353241534813304543529882int, 12645496892388221005878147017666448610171774083713839805798191206289730244058int);
    lemma_fundamental_div_mod_converse(12645496892388221005878147017666448610171774083713839805798191206289730244058int * 3, m, 1int, 16048247805325387795388035307742070741819011093843695754705535724223964523591int);
    assert(mod_pow(3, 627, 21888242871839275222246405745257275088696311157297823662689037894645226208583nat) == 16048247805325387795388035307742070741819011093843695754705535724223964523591nat);
    lemma_fundamental_div_mod_converse(16048247805325387795388035307742070741819011093843695754705535724223964523591int * 16048247805325387795388035307742070741819011093843695754705535724223964523591int, m, 11766419951072547711582114216163938791673121938963389849580862290737262055258int, 19239262840491714738898231474590575766370987226344069677018855227114015655867int);
    lemma_fundamental_div_mod_converse(19239262840491714738898231474590575766370987226344069677018855227114015655867int * 3, m, 2int, 13941302777796593772201882933257177121720339364436561705678489892051594550435int);
    assert(mod_pow(3, 1255, 21888242871839275222246405745257275088696311157297823662689037894645226208583nat) == 13941302777796593772201882933257177121720339364436561705678489892051594550435nat);
    lemma_fundamental_div_mod_converse(13941302777796593772201882933257177121720339364436561705678489892051594550435int * 13941302777796593772201882933257177121720339364436561705678489892051594550435int, m, 8879649420934395110015211370660727246872599693226629252392999010982668764076int, 16195925774769699339325035780264985981666687161164755497799363962889765424917int);
    lemma_fundamental_div_mod_converse(16195925774769699339325035780264985981666687161164755497799363962889765424917int * 3, m, 2int, 4811291580630547573482295850280407767607439168898619168020016099378843857585int);
    assert(mod_pow(3, 2511, 21888242871839275222246405745257275088696311157297823662689037894645226208583nat) == 4811291580630547573482295850280407767607439168898619168020016099378843857585nat);
    lemma_fundamental_div_mod_converse(4811291580630547573482295850280407767607439168898619168020016099378843857585int * 4811291580630547573482295850280407767607439168898619168020016099378843857585int, m, 1057578116680556351893523526964118331869345092719882218613641410326936890544int, 1347634985510655374838726502137270526365153390262235653328443562263377693073int);
    lemma_fundamental_div_mod_converse(1347634985510655374838726502137270526365153390262235653328443562263377693073int * 3, m, 0int, 4042904956531966124516179506411811579095460170786706959985330686790133079219int);
    assert(mod_pow(3, 5023, 21888242871839275222246405745257275088696311157297823662689037894645226208583nat) == 4042904956531966124516179506411811579095460170786706959985330686790133079219nat);
    lemma_fundamental_div_mod_converse(4042904956531966124516179506411811579095460170786706959985330686790133079219int * 4042904956531966124516179506411811579095460170786706959985330686790133079219int, m, 746751604651637218201957855564974175738875963322857715188709518400242771418int, 12069557634425990010878983894309607687338845158710188674114878743310070969267int);
    assert(mod_pow(3, 10046, 21888242871839275222246405745257275088696311157297823662689037894645226208583nat) == 12069557634425990010878983894309607687338845158710188674114878743310070969267nat);
    lemma_fundamental_div_mod_converse(12069557634425990010878983894309607687338845158710188674114878743310070969267int * 12069557634425990010878983894309607687338845158710188674114878743310070969267int, m, 6655363902149978931202723128161862485496710838405429225275074477195461906415int, 17514436931660527612176673440072678603158489263844149135317717844621242757344int);
    assert(mod_pow(3, 20092, 21888242871839275222246405745257275088696311157297823662689037894645226208583nat) == 17514436931660527612176673440072678603158489263844149135317717844621242757344nat);
    lemma_fundamental_div_mod_converse(17514436931660527612176673440072678603158489263844149135317717844621242757344int * 17514436931660527612176673440072678603158489263844149135317717844621242757344int, m, 14014624327281027008107268427752528034657801242816452074562661211346604514283int, 12437608014454576117190591774468197469542124320634796019505325580803705243347int);
    assert(mod_pow(3, 40184, 21888242871839275222246405745257275088696311157297823662689037894645226208583nat) == 12437608014454576117190591774468197469542124320634796019505325580803705243347nat);
    lemma_fundamental_div_mod_converse(12437608014454576117190591774468197469542124320634796019505325580803705243347int * 12437608014454576117190591774468197469542124320634796019505325580803705243347int, m, 7067451417959605043207779716069374499626475064457647134633287807081557604005int, 12572624672502437685712542266177002563815863725425962478303034139200641587494int);
    lemma_fundamental_div_mod_converse(12572624672502437685712542266177002563815863725425962478303034139200641587494int * 3, m, 1int, 15829631145668037834891221053273732602751280018980063772220064522956698553899int);
    assert(mod_pow(3, 80369, 21888242871839275222246405745257275088696311157297823662689037894645226208583nat) == 15829631145668037834891221053273732602751280018980063772220064522956698553899nat);
    lemma_fundamental_div_mod_converse(15829631145668037834891221053273732602751280018980063772220064522956698553899int * 15829631145668037834891221053273732602751280018980063772220064522956698553899int, m, 11448028225705059594890832640565088532894873462028631031375791466575776669569int, 4286381765672455208047085309004987395057348991386867133330267727885145391474int);
    assert(mod_pow(3, 160738, 21888242871839275222246405745257275088696311157297823662689037894645226208583nat) == 4286381765672455208047085309004987395057348991386867133330267727885145391474nat);
    lemma_fundamental_div_mod_converse(4286381765672455208047085309004987395057348991386867133330267727885145391474int * 4286381765672455208047085309004987395057348991386867133330267727885145391474int, m, 839403544115801405505822596301778855582265207084587503626344148841756664213int, 16170851964798137348033745171245741392108445459541133030665112538033282352497int);
    lemma_fundamental_div_mod_converse(16170851964798137348033745171245741392108445459541133030665112538033282352497int * 3, m, 2int, 4736070150715861599608424023222673998932714064027751766617261824809394640325int);
    assert(mod_pow(3, 321477, 21888242871839275222246405745257275088696311157297823662689037894645226208583nat) == 4736070150715861599608424023222673998932714064027751766617261824809394640325nat);
    lemma_fundamental_div_mod_converse(4736070150715861599608424023222673998932714064027751766617261824809394640325int * 4736070150715861599608424023222673998932714064027751766617261824809394640325int, m, 1024767524914480926090340580984606700629056325896836339139356291099459743990int, 14856668620162449101237985381339444143997468048079521698844553152532595439455int);
    assert(mod_pow(3, 642954, 21888242871839275222246405745257275088696311157297823662689037894645226208583nat) == 14856668620162449101237985381339444143997468048079521698844553152532595439455nat);
    lemma_fundamental_div_mod_converse(14856668620162449101237985381339444143997468048079521698844553152532595439455int * 14856668620162449101237985381339444143997468048079521698844553152532595439455int, m, 10083979960460498803234508567409520631634468061346945053849879633615668350825int, 17659934252122195470737100243891747223114507027364457075090718111901500566050int);
    assert(mod_pow(3, 1285908, 21888242871839275222246405745257275088696311157297823662689037894645226208583nat) == 17659934252122195470737100243891747223114507027364457075090718111901500566050nat);
    lemma_fundamental_div_mod_converse(17659934252122195470737100243891747223114507027364457075090718111901500566050int * 17659934252122195470737100243891747223114507027364457075090718111901500566050int, m, 14248438287868464608445302082716683821319578751753085600803296783013233970304int, 4846401772763053361352135234015991173460083724915701401600240939720480683268int);
    lemma_fundamental_div_mod_converse(4846401772763053361352135234015991173460083724915701401600240939720480683268int * 3, m, 0int, 14539205318289160084056405702047973520380251174747104204800722819161442049804int);
    assert(mod_pow(3, 2571817, 21888242871839275222246405745257275088696311157297823662689037894645226208583nat) == 14539205318289160084056405702047973520380251174747104204800722819161442049804nat);
    lemma_fundamental_div_mod_converse(14539205318289160084056405702047973520380251174747104204800722819161442049804int * 14539205318289160084056405702047973520380251174747104204800722819161442049804int, m, 9657627271640592968319724897280932913708392013214429547049312021592117485632int, 20998316854889348739514577071315999977929216274071585191564554855882878858960int);
    assert(mod_pow(3, 5143634, 21888242871839275222246405745257275088696311157297823662689037894645226208583nat) == 20998316854889348739514577071315999977929216274071585191564554855882878858960nat);
    lemma_fundamental_div_mod_converse(20998316854889348739514577071315999977929216274071585191564554855882878858960int * 20998316854889348739514577071315999977929216274071585191564554855882878858960int, m, 20144573199414553838073524072625776061353508668410831772212875508422743940354int, 15918860800932236635900523048912203627794770693292481918364251722462257423218int);
    assert(mod_pow(3, 10287268, 21888242871839275222246405745257275088696311157297823662689037894645226208583nat) == 15918860800932236635900523048912203627794770693292481918364251722462257423218nat);
    lemma_fundamental_div_mod_converse(15918860800932236635900523048912203627794770693292481918364251722462257423218int * 15918860800932236635900523048912203627794770693292481918364251722462257423218int, m, 11577454192336582285343265380211142784271798043734852653472368883243472193555int, 14657419045802635115714160647077116202277528517727581099091551810266187192959int);
    assert(mod_pow(3, 20574536, 21888242871839275222246405745257275088696311157297823662689037894645226208583nat) == 14657419045802635115714160647077116202277528517727581099091551810266187192959nat);
    lemma_fundamental_div_mod_converse(14657419045802635115714160647077116202277528517727581099091551810266187192959int * 14657419045802635115714160647077116202277528517727581099091551810266187192959int, m, 9815312007555623870598918120291947787164769717307333974649442768183646034966int, 18094448024528995075078292281009545685700162541736874066081919064978671862503int);
    assert(mod_pow(3, 41149072, 21888242871839275222246405745257275088696311157297823662689037894645226208583nat) == 18094448024528995075078292281009545685700162541736874066081919064978671862503nat);
    lemma_fundamental_div_mod_converse(18094448024528995075078292281009545685700162541736874066081919064978671862503int * 18094448024528995075078292281009545685700162541736874066081919064978671862503int, m, 14958215295281442461285781126991767289983214745095224562079648912956675195436int, 9028789848723347419925922449913333308376590423736578924510756162520111797821int);
    assert(mod_pow(3, 82298144, 21888242871839275222246405745257275088696311157297823662689037894645226208583nat) == 9028789848723347419925922449913333308376590423736578924510756162520111797821nat);
    lemma_fundamental_div_mod_converse(9028789848723347419925922449913333308376590423736578924510756162520111797821int * 9028789848723347419925922449913333308376590423736578924510756162520111797821int, m, 3724330299591549549917402042913992812649168871973930073225421152575226520282int, 14382769391261432927831470269049967333929861293074981848883187754645768367635int);
    assert(mod_pow(3, 164596288, 21888242871839275222246405745257275088696311157297823662689037894645226208583nat) == 14382769391261432927831470269049967333929861293074981848883187754645768367635nat);
    lemma_fundamental_div_mod_converse(14382769391261432927831470269049967333929861293074981848883187754645768367635int * 14382769391261432927831470269049967333929861293074981848883187754645768367635int, m, 9450921052614577690219836273830547185670036971940995445241048786751598332827int, 15777417164207981328272599194571461633337534667703055755327648974703557439084int);
    lemma_fundamental_div_mod_converse(15777417164207981328272599194571461633337534667703055755327648974703557439084int * 3, m, 2int, 3555765748945393540324986093199834722619981688513519940604871134820219900086int);
    assert(mod_pow(3, 329192577, 21888242871839275222246405745257275088696311157297823662689037894645226208583nat) == 3555765748945393540324986093199834722619981688513519940604871134820219900086nat);
    lemma_fundamental_div_mod_converse(3555765748945393540324986093199834722619981688513519940604871134820219900086int * 3555765748945393540324986093199834722619981688513519940604871134820219900086int, m, 577637507743478409584967633001010376659759542466756594783704487107471936017int, 4013565416245611056936050022121256308249224332541498662436569620764150573485int);
    lemma_fundamental_div_mod_converse(4013565416245611056936050022121256308249224332541498662436569620764150573485int * 3, m, 0int, 12040696248736833170808150066363768924747672997624495987309708862292451720455int);
    assert(mod_pow(3, 658385155, 21888242871839275222246405745257275088696311157297823662689037894645226208583nat) == 12040696248736833170808150066363768924747672997624495987309708862292451720455nat);
    lemma_fundamental_div_mod_converse(12040696248736833170808150066363768924747672997624495987309708862292451720455int * 12040696248736833170808150066363768924747672997624495987309708862292451720455int, m, 6623572618561805701252972323956227661193933063694995048755045986539133487760int, 2952784588017916759871411961685789123145437872503631024167221711575427962945int);
    lemma_fundamental_div_mod_converse(2952784588017916759871411961685789123145437872503631024167221711575427962945int * 3, m, 0int, 8858353764053750279614235885057367369436313617510893072501665134726283888835int);
    assert(mod_pow(3, 1316770311, 21888242871839275222246405745257275088696311157297823662689037894645226208583nat) == 8858353764053750279614235885057367369436313617510893072501665134726283888835nat);
    lemma_fundamental_div_mod_converse(8858353764053750279614235885057367369436313617510893072501665134726283888835int * 8858353764053750279614235885057367369436313617510893072501665134726283888835int, m, 3585049374158893056684001015947779342578994384767899333300259662796781955461int, 13612092676646225104169046194559262427080046866679181890564126691840835735462int);
    assert(mod_pow(3, 2633540622, 21888242871839275222246405745257275088696311157297823662689037894645226208583nat) == 13612092676646225104169046194559262427080046866679181890564126691840835735462nat);
    lemma_fundamental_div_mod_converse(13612092676646225104169046194559262427080046866679181890564126691840835735462int * 13612092676646225104169046194559262427080046866679181890564126691840835735462int, m, 8465232596445321717422844959852745690981475928721552754354217603475300191355int, 1813552007421643022349230311142316221913093813940274543692933188161400953479int);
    assert(mod_pow(3, 5267081244, 21888242871839275222246405745257275088696311157297823662689037894645226208583nat) == 1813552007421643022349230311142316221913093813940274543692933188161400953479nat);
    lemma_fundamental_div_mod_converse(1813552007421643022349230311142316221913093813940274543692933188161400953479int * 1813552007421643022349230311142316221913093813940274543692933188161400953479int, m, 150261987811482009427676709872003245072969486206991448050863183920959112970int, 6046529577682819656334909720401525160378691082992585398199448297334441581931int);
    assert(mod_pow(3, 10534162488, 21888242871839275222246405745257275088696311157297823662689037894645226208583nat) == 6046529577682819656334909720401525160378691082992585398199448297334441581931nat);
    lemma_fundamental_div_mod_converse(6046529577682819656334909720401525160378691082992585398199448297334441581931int * 6046529577682819656334909720401525160378691082992585398199448297334441581931int, m, 1670326857567483973320042120309803917942642440527782576934814926183287168890int, 17005943764154522353110444246931109770080136235724239726871702155703097105891int);
    lemma_fundamental_div_mod_converse(17005943764154522353110444246931109770080136235724239726871702155703097105891int * 3, m, 2int, 7241345548785016614838521250278779132847786392577071855237030677818838900507int);
    assert(mod_pow(3, 21068324977, 21888242871839275222246405745257275088696311157297823662689037894645226208583nat) == 7241345548785016614838521250278779132847786392577071855237030677818838900507nat);
    lemma_fundamental_div_mod_converse(7241345548785016614838521250278779132847786392577071855237030677818838900507int * 7241345548785016614838521250278779132847786392577071855237030677818838900507int, m, 2395673588964625298393237747953623436494664800209170885398941681427807924285int, 13925520699095963604872896197015939558229446118806617158477462660338963718894int);
    assert(mod_pow(3, 42136649954, 21888242871839275222246405745257275088696311157297823662689037894645226208583nat) == 13925520699095963604872896197015939558229446118806617158477462660338963718894nat);
    lemma_fundamental_div_mod_converse(13925520699095963604872896197015939558229446118806617158477462660338963718894int * 13925520699095963604872896197015939558229446118806617158477462660338963718894int, m, 8859556606548882467992769829004227233887754645660296348222125528387789020484int, 4277821997899700985899309220315334475133494425279382558372531869444008969064int);
    lemma_fundamental_div_mod_converse(4277821997899700985899309220315334475133494425279382558372531869444008969064int * 3, m, 0int, 12833465993699102957697927660946003425400483275838147675117595608332026907192int);
    assert(mod_pow(3, 84273299909, 21888242871839275222246405745257275088696311157297823662689037894645226208583nat) == 12833465993699102957697927660946003425400483275838147675117595608332026907192nat);
    lemma_fundamental_div_mod_converse(12833465993699102957697927660946003425400483275838147675117595608332026907192int * 12833465993699102957697927660946003425400483275838147675117595608332026907192int, m, 7524489305778234786909458451498780791926179095137443148938806372695260814059int, 380945372488419055741505256421629063860001162441938467786550917866268456467int);
    assert(mod_pow(3, 168546599818, 21888242871839275222246405745257275088696311157297823662689037894645226208583nat) == 380945372488419055741505256421629063860001162441938467786550917866268456467nat);
    lemma_fundamental_div_mod_converse(380945372488419055741505256421629063860001162441938467786550917866268456467int * 380945372488419055741505256421629063860001162441938467786550917866268456467int, m, 6630014920340927295052398163224627326606650202495387437345182556243922965int, 19587430529403389369033665353773573735688664838207891869100808869677400313494int);
    assert(mod_pow(3, 337093199636, 21888242871839275222246405745257275088696311157297823662689037894645226208583nat) == 19587430529403389369033665353773573735688664838207891869100808869677400313494nat);
    lemma_fundamental_div_mod_converse(19587430529403389369033665353773573735688664838207891869100808869677400313494int * 19587430529403389369033665353773573735688664838207891869100808869677400313494int, m, 17528471197558685512145972354132689211858942425687461872755890188926571733703int, 5494313663100365190323762972125823477540162056547044459198949490405669515187int);
    assert(mod_pow(3, 674186399272, 21888242871839275222246405745257275088696311157297823662689037894645226208583nat) == 5494313663100365190323762972125823477540162056547044459198949490405669515187nat);
    lemma_fundamental_div_mod_converse(5494313663100365190323762972125823477540162056547044459198949490405669515187int * 5494313663100365190323762972125823477540162056547044459198949490405669515187int, m, 1379164275784312446370596730040534284610761472617905197784145615116131422598int, 15126160158919853681542848285723578328977484740852301341053785154797955886335int);
    assert(mod_pow(3, 1348372798544, 21888242871839275222246405745257275088696311157297823662689037894645226208583nat) == 15126160158919853681542848285723578328977484740852301341053785154797955886335nat);
    lemma_fundamental_div_mod_converse(15126160158919853681542848285723578328977484740852301341053785154797955886335int * 15126160158919853681542848285723578328977484740852301341053785154797955886335int, m, 10453133332491577203037608501821038417013220521042427921344369898417886748758int, 2158334490292704103188623073241302249893517685646568630197185012474415542311int);
    assert(mod_pow(3, 2696745597088, 21888242871839275222246405745257275088696311157297823662689037894645226208583nat) == 2158334490292704103188623073241302249893517685646568630197185012474415542311nat);
    lemma_fundamental_div_mod_converse(2158334490292704103188623073241302249893517685646568630197185012474415542311int * 2158334490292704103188623073241302249893517685646568630197185012474415542311int, m, 212826940895307212187539344895796189414990421531924170358495633624179487360int, 18857471863212522066464233244152993150510605971487957536808590266666859209841int);
    lemma_fundamental_div_mod_converse(18857471863212522066464233244152993150510605971487957536808590266666859209841int * 3, m, 2int, 12795929845959015754899888241944429274139195599868225285047695010710125212357int);
    assert(mod_pow(3, 5393491194177, 21888242871839275222246405745257275088696311157297823662689037894645226208583nat) == 12795929845959015754899888241944429274139195599868225285047695010710125212357nat);
    lemma_fundamental_div_mod_converse(12795929845959015754899888241944429274139195599868225285047695010710125212357int * 12795929845959015754899888241944429274139195599868225285047695010710125212357int, m, 7480537454806940081988613461038037185081707652934553854234356569387017279709int, 3297816451858284679091656686683882334930632472351190889114077749329857953102int);
    assert(mod_pow(3, 10786982388354, 21888242871839275222246405745257275088696311157297823662689037894645226208583nat) == 3297816451858284679091656686683882334930632472351190889114077749329857953102nat);
    lemma_fundamental_div_mod_converse(3297816451858284679091656686683882334930632472351190889114077749329857953102int * 3297816451858284679091656686683882334930632472351190889114077749329857953102int, m, 496869182868002729434679338815580696016407477652999965276229742367003994358int, 15457774758555621070805002679885140075346260161327006705708650568212168247690int);
    lemma_fundamental_div_mod_converse(15457774758555621070805002679885140075346260161327006705708650568212168247690int * 3, m, 2int, 2596838531988312767922196549140870048646158169385372791747875915346052325904int);
    assert(mod_pow(3, 21573964776709, 21888242871839275222246405745257275088696311157297823662689037894645226208583nat) == 2596838531988312767922196549140870048646158169385372791747875915346052325904nat);
    lemma_fundamental_div_mod_converse(2596838531988312767922196549140870048646158169385372791747875915346052325904int * 2596838531988312767922196549140870048646158169385372791747875915346052325904int, m, 308090987508882260282297832047482440207228683377907235038438715342363735717int, 11729923891626787635288156046213771991526329445286383331847810587576100358205int);
    lemma_fundamental_div_mod_converse(11729923891626787635288156046213771991526329445286383331847810587576100358205int * 3, m, 1int, 13301528803041087683618062393384040885882677178561326332854393868083074866032int);
    assert(mod_pow(3, 43147929553419, 21888242871839275222246405745257275088696311157297823662689037894645226208583nat) == 13301528803041087683618062393384040885882677178561326332854393868083074866032nat);
    lemma_fundamental_div_mod_converse(13301528803041087683618062393384040885882677178561326332854393868083074866032int * 13301528803041087683618062393384040885882677178561326332854393868083074866032int, m, 8083365555385220231924903371633171223182484116049911529130599736885848441019int, 4773968074801216338865874940499788389286393213661099239517677866384080358947int);
    lemma_fundamental_div_mod_converse(4773968074801216338865874940499788389286393213661099239517677866384080358947int * 3, m, 0int, 14321904224403649016597624821499365167859179640983297718553033599152241076841int);
    assert(mod_pow(3, 86295859106839, 21888242871839275222246405745257275088696311157297823662689037894645226208583nat) == 14321904224403649016597624821499365167859179640983297718553033599152241076841nat);
    lemma_fundamental_div_mod_converse(14321904224403649016597624821499365167859179640983297718553033599152241076841int * 14321904224403649016597624821499365167859179640983297718553033599152241076841int, m, 9371101271764856514199030751968993084222037527207399708669691825160791897213int, 14443782893033002825008714630843775631609261304642034715767837389095832160102int);
    lemma_fundamental_div_mod_converse(14443782893033002825008714630843775631609261304642034715767837389095832160102int * 3, m, 1int, 21443105807259733252779738147274051806131472756628280484614474272642270271723int);
    assert(mod_pow(3, 172591718213679, 21888242871839275222246405745257275088696311157297823662689037894645226208583nat) == 21443105807259733252779738147274051806131472756628280484614474272642270271723nat);
    lemma_fundamental_div_mod_converse(21443105807259733252779738147274051806131472756628280484614474272642270271723int * 21443105807259733252779738147274051806131472756628280484614474272642270271723int, m, 21007021411157176296273011237947325792419663475431811948367199218049808754310int, 7747519009707357827213959418556326334568980916567404231530098319452793145999int);
    lemma_fundamental_div_mod_converse(7747519009707357827213959418556326334568980916567404231530098319452793145999int * 3, m, 1int, 1354314157282798259395472510411703915010631592404389031901257063713153229414int);
    assert(mod_pow(3, 345183436427359, 21888242871839275222246405745257275088696311157297823662689037894645226208583nat) == 1354314157282798259395472510411703915010631592404389031901257063713153229414nat);
    lemma_fundamental_div_mod_converse(1354314157282798259395472510411703915010631592404389031901257063713153229414int * 1354314157282798259395472510411703915010631592404389031901257063713153229414int, m, 83796897145014658959168986079752211154209378682401496327955567891440765000int, 8085256462075772173247422302915763805940110368424492034213344249338228788396int);
    lemma_fundamental_div_mod_converse(8085256462075772173247422302915763805940110368424492034213344249338228788396int * 3, m, 1int, 2367526514388041297495861163490016329124019947975652439950994853369460156605int);
    assert(mod_pow(3, 690366872854719, 21888242871839275222246405745257275088696311157297823662689037894645226208583nat) == 2367526514388041297495861163490016329124019947975652439950994853369460156605nat);
    lemma_fundamental_div_mod_converse(2367526514388041297495861163490016329124019947975652439950994853369460156605int * 2367526514388041297495861163490016329124019947975652439950994853369460156605int, m, 256081853127728169690335156843205729017709223718845498236643376420979773037int, 7649055501167847960261609337716466861493345261025063353957772315795763749454int);
    lemma_fundamental_div_mod_converse(7649055501167847960261609337716466861493345261025063353957772315795763749454int * 3, m, 1int, 1058923631664268658538422267892125495783724625777366399184279052742065039779int);
    assert(mod_pow(3, 1380733745709439, 21888242871839275222246405745257275088696311157297823662689037894645226208583nat) == 1058923631664268658538422267892125495783724625777366399184279052742065039779nat);
    lemma_fundamental_div_mod_converse(1058923631664268658538422267892125495783724625777366399184279052742065039779int * 1058923631664268658538422267892125495783724625777366399184279052742065039779int, m, 51229295300798119646383527249038640017582299836624398277887865416572505482int, 12668286475953944141935281672343903952778052497268551490714563763137009416835int);
    lemma_fundamental_div_mod_converse(12668286475953944141935281672343903952778052497268551490714563763137009416835int * 3, m, 1int, 16116616556022557203559439271774436769637846334507830809454653394765802041922int);
    assert(mod_pow(3, 2761467491418879, 21888242871839275222246405745257275088696311157297823662689037894645226208583nat) == 16116616556022557203559439271774436769637846334507830809454653394765802041922nat);
    lemma_fundamental_div_mod_converse(16116616556022557203559439271774436769637846334507830809454653394765802041922int * 16116616556022557203559439271774436769637846334507830809454653394765802041922int, m, 11866888115904477784147198267323950531181928261406249825027051652845273177616int, 1982872183938529357193197913289527221905868965859210038912216517828222775956int);
    assert(mod_pow(3, 5522934982837758, 21888242871839275222246405745257275088696311157297823662689037894645226208583nat) == 1982872183938529357193197913289527221905868965859210038912216517828222775956nat);
    lemma_fundamental_div_mod_converse(1982872183938529357193197913289527221905868965859210038912216517828222775956int * 1982872183938529357193197913289527221905868965859210038912216517828222775956int, m, 179629864345833816208408525612634075507994562229996965566369983745556433309int, 14490210386715044876761775142811010610497015824307472221514771032632208822789int);
    lemma_fundamental_div_mod_converse(14490210386715044876761775142811010610497015824307472221514771032632208822789int * 3, m, 1int, 21582388288305859408038919683175756742794736315624593001855275203251400259784int);
    assert(mod_pow(3, 11045869965675517, 21888242871839275222246405745257275088696311157297823662689037894645226208583nat) == 21582388288305859408038919683175756742794736315624593001855275203251400259784nat);
    lemma_fundamental_div_mod_converse(21582388288305859408038919683175756742794736315624593001855275203251400259784int * 21582388288305859408038919683175756742794736315624593001855275203251400259784int, m, 21280807552920791485821070737274892471696791358270455590555253979673991066398int, 11703936846684145635578016947597086806607334814394499555865274963668137232622int);
    assert(mod_pow(3, 22091739931351034, 21888242871839275222246405745257275088696311157297823662689037894645226208583nat) == 11703936846684145635578016947597086806607334814394499555865274963668137232622nat);
    lemma_fundamental_div_mod_converse(11703936846684145635578016947597086806607334814394499555865274963668137232622int * 11703936846684145635578016947597086806607334814394499555865274963668137232622int, m, 6258251907804245534324642246115149484717909966563775358014293758891379171777int, 20642054862437128456682164782741528658379289659418102117681801620256152232893int);
    assert(mod_pow(3, 44183479862702068, 21888242871839275222246405745257275088696311157297823662689037894645226208583nat) == 20642054862437128456682164782741528658379289659418102117681801620256152232893nat);
    lemma_fundamental_div_mod_converse(20642054862437128456682164782741528658379289659418102117681801620256152232893int * 20642054862437128456682164782741528658379289659418102117681801620256152232893int, m, 19466817479993516864992418699931320463833985690747792421686003633084362897638int, 12764133979705687080401731092254331664223238835756565365331310737027245122495int);
    lemma_fundamental_div_mod_converse(12764133979705687080401731092254331664223238835756565365331310737027245122495int * 3, m, 1int, 16404159067277786018958787531505719903973405349971872433304894316436509158902int);
    assert(mod_pow(3, 88366959725404137, 21888242871839275222246405745257275088696311157297823662689037894645226208583nat) == 16404159067277786018958787531505719903973405349971872433304894316436509158902nat);
    lemma_fundamental_div_mod_converse(16404159067277786018958787531505719903973405349971872433304894316436509158902int * 16404159067277786018958787531505719903973405349971872433304894316436509158902int, m, 12294108589719781068181108208325870230389391112939124017187914159391561873823int, 466812292336619854497186332992251206366460061142982934888789137862160222795int);
    assert(mod_pow(3, 176733919450808274, 21888242871839275222246405745257275088696311157297823662689037894645226208583nat) == 466812292336619854497186332992251206366460061142982934888789137862160222795nat);
    lemma_fundamental_div_mod_converse(466812292336619854497186332992251206366460061142982934888789137862160222795int * 466812292336619854497186332992251206366460061142982934888789137862160222795int, m, 9955742795458961603327787422989605233997062604055025716140616798791706092int, 7131506431933710495620920991084941095111003939628029172037704254636813824389int);
    assert(mod_pow(3, 353467838901616548, 21888242871839275222246405745257275088696311157297823662689037894645226208583nat) == 7131506431933710495620920991084941095111003939628029172037704254636813824389nat);
    lemma_fundamental_div_mod_converse(7131506431933710495620920991084941095111003939628029172037704254636813824389int * 7131506431933710495620920991084941095111003939628029172037704254636813824389int, m, 2323548047529419533472927459777900387816542182863346004132949469249294792396int, 4514862508447736531087696124820943518757697549227495393928668376786952888453int);
    assert(mod_pow(3, 706935677803233096, 21888242871839275222246405745257275088696311157297823662689037894645226208583nat) == 4514862508447736531087696124820943518757697549227495393928668376786952888453nat);
    lemma_fundamental_div_mod_converse(4514862508447736531087696124820943518757697549227495393928668376786952888453int * 4514862508447736531087696124820943518757697549227495393928668376786952888453int, m, 931275460965045292331452997582737585903275031671054548365053742685445972619int, 21136507028661857104962376007354648363588815725013756485466375227075659944332int);
    lemma_fundamental_div_mod_converse(21136507028661857104962376007354648363588815725013756485466375227075659944332int * 3, m, 2int, 19633035342307020870394316531549394913373824860445622131021049891936527415830int);
    assert(mod_pow(3, 1413871355606466193, 21888242871839275222246405745257275088696311157297823662689037894645226208583nat) == 19633035342307020870394316531549394913373824860445622131021049891936527415830nat);
    lemma_fundamental_div_mod_converse(19633035342307020870394316531549394913373824860445622131021049891936527415830int * 19633035342307020870394316531549394913373824860445622131021049891936527415830int, m, 17610188218817337040654575118914906395578297229013438078086351162413048248012int, 20334097678466938012394817075837176448924365650259509901465804460584307501904int);
    assert(mod_pow(3, 2827742711212932386, 21888242871839275222246405745257275088696311157297823662689037894645226208583nat) == 20334097678466938012394817075837176448924365650259509901465804460584307501904nat);
    lemma_fundamental_div_mod_converse(20334097678466938012394817075837176448924365650259509901465804460584307501904int * 20334097678466938012394817075837176448924365650259509901465804460584307501904int, m, 18890302470528556078501223421980398586138637719418182477264869811719745041354int, 17432921986803019950272978795753618629974290415168479811571419993036998883834int);
    assert(mod_pow(3, 5655485422425864772, 21888242871839275222246405745257275088696311157297823662689037894645226208583nat) == 17432921986803019950272978795753618629974290415168479811571419993036998883834nat);
    lemma_fundamental_div_mod_converse(17432921986803019950272978795753618629974290415168479811571419993036998883834int * 17432921986803019950272978795753618629974290415168479811571419993036998883834int, m, 13884475367776416717520825075528810012153834171767286942215069838502835802695int, 7897716759731930336696328647381155368113611416609020361727921332277523008371int);
    lemma_fundamental_div_mod_converse(7897716759731930336696328647381155368113611416609020361727921332277523008371int * 3, m, 1int, 1804907407356515787842580196886191015644523092529237422494726102187342816530int);
    assert(mod_pow(3, 11310970844851729545nat, 21888242871839275222246405745257275088696311157297823662689037894645226208583nat) == 1804907407356515787842580196886191015644523092529237422494726102187342816530nat);
    lemma_fundamental_div_mod_converse(1804907407356515787842580196886191015644523092529237422494726102187342816530int * 1804907407356515787842580196886191015644523092529237422494726102187342816530int, m, 148832903956930323891420235285044099747648681558953591303835069511895128936int, 2511977908428439917460056085677255554797219461266805362641211778912026383212int);
    assert(mod_pow(3, 22621941689703459090nat, 21888242871839275222246405745257275088696311157297823662689037894645226208583nat) == 2511977908428439917460056085677255554797219461266805362641211778912026383212nat);
    lemma_fundamental_div_mod_converse(2511977908428439917460056085677255554797219461266805362641211778912026383212int * 2511977908428439917460056085677255554797219461266805362641211778912026383212int, m, 288284128122080081135892446008337831743222979239951012768586214767923641792int, 10674415918897592776092524654666828928095415301064775327307064862059907536208int);
    lemma_fundamental_div_mod_converse(10674415918897592776092524654666828928095415301064775327307064862059907536208int * 3, m, 1int, 10135004884853503106031168218743211695589934745896502319232156691534496400041int);
    assert(mod_pow(3, 45243883379406918181nat, 21888242871839275222246405745257275088696311157297823662689037894645226208583nat) == 10135004884853503106031168218743211695589934745896502319232156691534496400041nat);
    lemma_fundamental_div_mod_converse(10135004884853503106031168218743211695589934745896502319232156691534496400041int * 10135004884853503106031168218743211695589934745896502319232156691534496400041int, m, 4692853812772633951203105787318842830574534954612024335028467150734251289839int, 6020466421962649701538498097539767326789732067926650735678166912793302313544int);
    assert(mod_pow(3, 90487766758813836362nat, 21888242871839275222246405745257275088696311157297823662689037894645226208583nat) == 6020466421962649701538498097539767326789732067926650735678166912793302313544nat);
    lemma_fundamental_div_mod_converse(6020466421962649701538498097539767326789732067926650735678166912793302313544int * 6020466421962649701538498097539767326789732067926650735678166912793302313544int, m, 1655958230645034262899819692052950193987629943429285277707408453252902740750int, 15110787979481807997694821818191045019792540487264027750366263776891011982686int);
    lemma_fundamental_div_mod_converse(15110787979481807997694821818191045019792540487264027750366263776891011982686int * 3, m, 2int, 1555878194766873548591653964058584881984999147196435925720715541382583530892int);
    assert(mod_pow(3, 180975533517627672725nat, 21888242871839275222246405745257275088696311157297823662689037894645226208583nat) == 1555878194766873548591653964058584881984999147196435925720715541382583530892nat);
    lemma_fundamental_div_mod_converse(1555878194766873548591653964058584881984999147196435925720715541382583530892int * 1555878194766873548591653964058584881984999147196435925720715541382583530892int, m, 110596221502343390724769827437359863593574861577415933285243055173500051521int, 8775473961944355589602436975657921538223887514363646271255884982939925910921int);
    assert(mod_pow(3, 361951067035255345450nat, 21888242871839275222246405745257275088696311157297823662689037894645226208583nat) == 8775473961944355589602436975657921538223887514363646271255884982939925910921nat);
    lemma_fundamental_div_mod_converse(8775473961944355589602436975657921538223887514363646271255884982939925910921int * 8775473961944355589602436975657921538223887514363646271255884982939925910921int, m, 3518278909260489308162490023527149163978633889606608047336873998908935609536int, 20668406594630284490318917405463470142745304903672694164670135659680247220753int);
    lemma_fundamental_div_mod_converse(20668406594630284490318917405463470142745304903672694164670135659680247220753int * 3, m, 2int, 18228734040212303026463940725875860250843292396422435168632331189750289245093int);
    assert(mod_pow(3, 723902134070510690901nat, 21888242871839275222246405745257275088696311157297823662689037894645226208583nat) == 18228734040212303026463940725875860250843292396422435168632331189750289245093nat);
    lemma_fundamental_div_mod_converse(18228734040212303026463940725875860250843292396422435168632331189750289245093int * 18228734040212303026463940725875860250843292396422435168632331189750289245093int, m, 15181060748202151300830110367717623309184417775048945309781489059682460928364int, 11094319284170676470935719665130138676307380429765617737848666328885739630437int);
    lemma_fundamental_div_mod_converse(11094319284170676470935719665130138676307380429765617737848666328885739630437int * 3, m, 1int, 11394714980672754190560753250133140940225830131999029550856961092011992682728int);
    assert(mod_pow(3, 1447804268141021381803nat, 21888242871839275222246405745257275088696311157297823662689037894645226208583nat) == 11394714980672754190560753250133140940225830131999029550856961092011992682728nat);
    lemma_fundamental_div_mod_converse(11394714980672754190560753250133140940225830131999029550856961092011992682728int * 11394714980672754190560753250133140940225830131999029550856961092011992682728int, m, 5931930226241026382640542301604062633973644021042275349337306296608600406537int, 12805640023265126881404642396795578962706747877380785512598277893073510814913int);
    assert(mod_pow(3, 2895608536282042763606nat, 21888242871839275222246405745257275088696311157297823662689037894645226208583nat) == 12805640023265126881404642396795578962706747877380785512598277893073510814913nat);
    lemma_fundamental_div_mod_converse(12805640023265126881404642396795578962706747877380785512598277893073510814913int * 12805640023265126881404642396795578962706747877380785512598277893073510814913int, m, 7491894957745871474469455857048369295078447206437935525568726184084393330978int, 6388782679122360108355173035497283752887404895921769800752569946548159813395int);
    assert(mod_pow(3, 5791217072564085527212nat, 21888242871839275222246405745257275088696311157297823662689037894645226208583nat) == 6388782679122360108355173035497283752887404895921769800752569946548159813395nat);
    lemma_fundamental_div_mod_converse(6388782679122360108355173035497283752887404895921769800752569946548159813395int * 6388782679122360108355173035497283752887404895921769800752569946548159813395int, m, 1864770249491664910773300911641918616429446615717698188882650404706764399696int, 11267216723324372239152521535347636881867140797063702622667422627951143635257int);
    assert(mod_pow(3, 11582434145128171054424nat, 21888242871839275222246405745257275088696311157297823662689037894645226208583nat) == 11267216723324372239152521535347636881867140797063702622667422627951143635257nat);
    lemma_fundamental_div_mod_converse(11267216723324372239152521535347636881867140797063702622667422627951143635257int * 11267216723324372239152521535347636881867140797063702622667422627951143635257int, m, 5799925258216615564522873073762273129467049631930011011086214642665070967197int, 6647407186731217642511784135394460419626555708179668571701881160751980604198int);
    lemma_fundamental_div_mod_converse(6647407186731217642511784135394460419626555708179668571701881160751980604198int * 3, m, 0int, 19942221560193652927535352406183381258879667124539005715105643482255941812594int);
    assert(mod_pow(3, 23164868290256342108849nat, 21888242871839275222246405745257275088696311157297823662689037894645226208583nat) == 19942221560193652927535352406183381258879667124539005715105643482255941812594nat);
    lemma_fundamental_div_mod_converse(19942221560193652927535352406183381258879667124539005715105643482255941812594int * 19942221560193652927535352406183381258879667124539005715105643482255941812594int, m, 18169215458930732568761701253271481980808522702985690248923782824333666726337int, 15969896225587227119488529394147986928500730603606693639121326615178275458365int);
    lemma_fundamental_div_mod_converse(15969896225587227119488529394147986928500730603606693639121326615178275458365int * 3, m, 2int, 4133202933083130913972776691929410608109569496224433591985904056244373957929int);
    assert(mod_pow(3, 46329736580512684217699nat, 21888242871839275222246405745257275088696311157297823662689037894645226208583nat) == 4133202933083130913972776691929410608109569496224433591985904056244373957929nat);
    lemma_fundamental_div_mod_converse(4133202933083130913972776691929410608109569496224433591985904056244373957929int * 4133202933083130913972776691929410608109569496224433591985904056244373957929int, m, 780481402096735609714876743039108077461236401446314415727040929810532275026int, 18691001829908047267474290945024821728073214930505545157414955761705264220883int);
    lemma_fundamental_div_mod_converse(18691001829908047267474290945024821728073214930505545157414955761705264220883int * 3, m, 2int, 12296519746045591357930061344559915006827022476920988146866791495825340245483int);
    assert(mod_pow(3, 92659473161025368435399nat, 21888242871839275222246405745257275088696311157297823662689037894645226208583nat) == 12296519746045591357930061344559915006827022476920988146866791495825340245483nat);
    lemma_fundamental_div_mod_converse(12296519746045591357930061344559915006827022476920988146866791495825340245483int * 12296519746045591357930061344559915006827022476920988146866791495825340245483int, m, 6908019010490054306550578495872584354376214483909742722453915961746976345766int, 20321257208392727336579206824649081730160108559830810063211589437158456993711int);
    assert(mod_pow(3, 185318946322050736870798nat, 21888242871839275222246405745257275088696311157297823662689037894645226208583nat) == 20321257208392727336579206824649081730160108559830810063211589437158456993711nat);
    lemma_fundamental_div_mod_converse(20321257208392727336579206824649081730160108559830810063211589437158456993711int * 20321257208392727336579206824649081730160108559830810063211589437158456993711int, m, 18866452503638213837171366255265591902148521258189823751973177657774446917035int, 19660668457795144221268186563639532986089121320300950652074877921641687640116int);
    lemma_fundamental_div_mod_converse(19660668457795144221268186563639532986089121320300950652074877921641687640116int * 3, m, 2int, 15205519629706882219311748200404048780874741646307204630846557975634610503182int);
    assert(mod_pow(3, 370637892644101473741597nat, 21888242871839275222246405745257275088696311157297823662689037894645226208583nat) == 15205519629706882219311748200404048780874741646307204630846557975634610503182nat);
    lemma_fundamental_div_mod_converse(15205519629706882219311748200404048780874741646307204630846557975634610503182int * 15205519629706882219311748200404048780874741646307204630846557975634610503182int, m, 10563105890371220174132076372914505912152035023481964269073740898628648436629int, 11786005056438287336092047101744569746991345733748252191795649491151220738417int);
    lemma_fundamental_div_mod_converse(11786005056438287336092047101744569746991345733748252191795649491151220738417int * 3, m, 1int, 13469772297475586786029735559976434152277726043946932912697910578808436006668int);
    assert(mod_pow(3, 741275785288202947483195nat, 21888242871839275222246405745257275088696311157297823662689037894645226208583nat) == 13469772297475586786029735559976434152277726043946932912697910578808436006668nat);
    lemma_fundamental_div_mod_converse(13469772297475586786029735559976434152277726043946932912697910578808436006668int * 13469772297475586786029735559976434152277726043946932912697910578808436006668int, m, 8289142568829451822474018787508244268247778076225121510198443453945930074168int, 20348304385505378391226505359491218732604419930831631335290090454247912278280int);
    assert(mod_pow(3, 1482551570576405894966390nat, 21888242871839275222246405745257275088696311157297823662689037894645226208583nat) == 20348304385505378391226505359491218732604419930831631335290090454247912278280nat);
    lemma_fundamental_div_mod_converse(20348304385505378391226505359491218732604419930831631335290090454247912278280int * 20348304385505378391226505359491218732604419930831631335290090454247912278280int, m, 18916707649378544346708973200750669367107062332906382963798634949076555559070int, 10407702918719448968550724102517175402821187206328321179170956990292162260590int);
    assert(mod_pow(3, 2965103141152811789932780nat, 21888242871839275222246405745257275088696311157297823662689037894645226208583nat) == 10407702918719448968550724102517175402821187206328321179170956990292162260590nat);
    lemma_fundamental_div_mod_converse(10407702918719448968550724102517175402821187206328321179170956990292162260590int * 10407702918719448968550724102517175402821187206328321179170956990292162260590int, m, 4948788291438542197544909391673448835136272816199591206400576779700902227688int, 16303488064277910179262573992167609610785168381421800396634044525552221301996int);
    assert(mod_pow(3, 5930206282305623579865560nat, 21888242871839275222246405745257275088696311157297823662689037894645226208583nat) == 16303488064277910179262573992167609610785168381421800396634044525552221301996nat);
    lemma_fundamental_div_mod_converse(16303488064277910179262573992167609610785168381421800396634044525552221301996int * 16303488064277910179262573992167609610785168381421800396634044525552221301996int, m, 12143675699250714539261348674695402046448948694085554045259471062896908978747int, 20064526606774566432167540484767035419073846661591880650321766413180097598515int);
    lemma_fundamental_div_mod_converse(20064526606774566432167540484767035419073846661591880650321766413180097598515int * 3, m, 2int, 16417094076645148852009809963786556079828917670179994625587223450249840378379int);
    assert(mod_pow(3, 11860412564611247159731121nat, 21888242871839275222246405745257275088696311157297823662689037894645226208583nat) == 16417094076645148852009809963786556079828917670179994625587223450249840378379nat);
    lemma_fundamental_div_mod_converse(16417094076645148852009809963786556079828917670179994625587223450249840378379int * 16417094076645148852009809963786556079828917670179994625587223450249840378379int, m, 12313504537551273469326977393548923913593004039565897518111725707861894302774int, 19153719935862621035593376747807614055080328543032500193486535453405611158399int);
    assert(mod_pow(3, 23720825129222494319462242nat, 21888242871839275222246405745257275088696311157297823662689037894645226208583nat) == 19153719935862621035593376747807614055080328543032500193486535453405611158399nat);
    lemma_fundamental_div_mod_converse(19153719935862621035593376747807614055080328543032500193486535453405611158399int * 19153719935862621035593376747807614055080328543032500193486535453405611158399int, m, 16760824042822467060415038726195120903321969356047913496091665172020847761298int, 16930347719390321522546823206480160161971803142599362180036131644026725422467int);
    lemma_fundamental_div_mod_converse(16930347719390321522546823206480160161971803142599362180036131644026725422467int * 3, m, 2int, 7014557414492414123147658128925930308522787113202439214730319142789723850235int);
    assert(mod_pow(3, 47441650258444988638924485nat, 21888242871839275222246405745257275088696311157297823662689037894645226208583nat) == 7014557414492414123147658128925930308522787113202439214730319142789723850235nat);
    lemma_fundamental_div_mod_converse(7014557414492414123147658128925930308522787113202439214730319142789723850235int * 7014557414492414123147658128925930308522787113202439214730319142789723850235int, m, 2247965540647159054181028248123638639438219972395653725516276482732646248761int, 20220194175356191529590402502217575786995037952371326360355600709375218239562int);
    lemma_fundamental_div_mod_converse(20220194175356191529590402502217575786995037952371326360355600709375218239562int * 3, m, 2int, 16884096782390024144278396016138177183592491542518331755688726338835202301520int);
    assert(mod_pow(3, 94883300516889977277848971nat, 21888242871839275222246405745257275088696311157297823662689037894645226208583nat) == 16884096782390024144278396016138177183592491542518331755688726338835202301520nat);
    lemma_fundamental_div_mod_converse(16884096782390024144278396016138177183592491542518331755688726338835202301520int * 16884096782390024144278396016138177183592491542518331755688726338835202301520int, m, 13024011375708863600762020504462287804672092946695094326586939686200447891336int, 17838090300520923253450645290968874773767732395455687340736707717120539773512int);
    assert(mod_pow(3, 189766601033779954555697942nat, 21888242871839275222246405745257275088696311157297823662689037894645226208583nat) == 17838090300520923253450645290968874773767732395455687340736707717120539773512nat);
    lemma_fundamental_div_mod_converse(17838090300520923253450645290968874773767732395455687340736707717120539773512int * 17838090300520923253450645290968874773767732395455687340736707717120539773512int, m, 14537369099596454691914602967039373458820418490722834541906274048967093232194int, 3222937059114176611369414831678116814395041427141723482166608231510762093042int);
    assert(mod_pow(3, 379533202067559909111395884nat, 21888242871839275222246405745257275088696311157297823662689037894645226208583nat) == 3222937059114176611369414831678116814395041427141723482166608231510762093042nat);
    lemma_fundamental_div_mod_converse(3222937059114176611369414831678116814395041427141723482166608231510762093042int * 3222937059114176611369414831678116814395041427141723482166608231510762093042int, m, 474561770345464365705765314558754044358756642458488254729884397871505011581int, 4703042240528240138405605774702328372236335118738371079313068844152528214041int);
    assert(mod_pow(3, 759066404135119818222791768nat, 21888242871839275222246405745257275088696311157297823662689037894645226208583nat) == 4703042240528240138405605774702328372236335118738371079313068844152528214041nat);
    lemma_fundamental_div_mod_converse(4703042240528240138405605774702328372236335118738371079313068844152528214041int * 4703042240528240138405605774702328372236335118738371079313068844152528214041int, m, 1010524528885321905257078461720065908641163967189440499999480889770255877143int, 13532474521762884814277114294671565620285134646765760727304726909786169431312int);
    lemma_fundamental_div_mod_converse(13532474521762884814277114294671565620285134646765760727304726909786169431312int * 3, m, 1int, 18709180693449379220584937138757421772159092782999458519225142834713282085353int);
    assert(mod_pow(3, 1518132808270239636445583537nat, 21888242871839275222246405745257275088696311157297823662689037894645226208583nat) == 18709180693449379220584937138757421772159092782999458519225142834713282085353nat);
    lemma_fundamental_div_mod_converse(18709180693449379220584937138757421772159092782999458519225142834713282085353int * 18709180693449379220584937138757421772159092782999458519225142834713282085353int, m, 15991847507799770016229223155484043329289327103017366342320842226159438299437int, 12523014526914033515533074258618901601266572535831722313184293204867803666838int);
    lemma_fundamental_div_mod_converse(12523014526914033515533074258618901601266572535831722313184293204867803666838int * 3, m, 1int, 15680800708902825324352817030599429715103406450197343276863841719958184791931int);
    assert(mod_pow(3, 3036265616540479272891167075nat, 21888242871839275222246405745257275088696311157297823662689037894645226208583nat) == 15680800708902825324352817030599429715103406450197343276863841719958184791931nat);
    lemma_fundamental_div_mod_converse(15680800708902825324352817030599429715103406450197343276863841719958184791931int * 15680800708902825324352817030599429715103406450197343276863841719958184791931int, m, 11233771130558793563981286254468991407899827196862756777875204996939879895609int, 18603767686926953091899700177780498067556578887513362452002804584672862896714int);
    assert(mod_pow(3, 6072531233080958545782334150nat, 21888242871839275222246405745257275088696311157297823662689037894645226208583nat) == 18603767686926953091899700177780498067556578887513362452002804584672862896714nat);
    lemma_fundamental_div_mod_converse(18603767686926953091899700177780498067556578887513362452002804584672862896714int * 18603767686926953091899700177780498067556578887513362452002804584672862896714int, m, 15812149662978613480010864118487369162637507787597195135298800747456281517413int, 14184808160232063684567273911698817938227009598215405594019098476466947442017int);
    lemma_fundamental_div_mod_converse(14184808160232063684567273911698817938227009598215405594019098476466947442017int * 3, m, 1int, 20666181608856915831455415989839178725984717637348393119368257534755616117468int);
    assert(mod_pow(3, 12145062466161917091564668301nat, 21888242871839275222246405745257275088696311157297823662689037894645226208583nat) == 20666181608856915831455415989839178725984717637348393119368257534755616117468nat);
    lemma_fundamental_div_mod_converse(20666181608856915831455415989839178725984717637348393119368257534755616117468int * 20666181608856915831455415989839178725984717637348393119368257534755616117468int, m, 19512350296502683115003306010837036826932905302078567577003237797302530957038int, 20522262657854904298178142733612231240513547611668948361855412789799174873870int);
    assert(mod_pow(3, 24290124932323834183129336602nat, 21888242871839275222246405745257275088696311157297823662689037894645226208583nat) == 20522262657854904298178142733612231240513547611668948361855412789799174873870nat);
    lemma_fundamental_div_mod_converse(20522262657854904298178142733612231240513547611668948361855412789799174873870int * 20522262657854904298178142733612231240513547611668948361855412789799174873870int, m, 19241529211092647787367040801821549394649882404797553849055550366316415261842int, 547999544370945383398004461626347292636143842488138026592674023019555987014int);
    lemma_fundamental_div_mod_converse(547999544370945383398004461626347292636143842488138026592674023019555987014int * 3, m, 0int, 1643998633112836150194013384879041877908431527464414079778022069058667961042int);
    assert(mod_pow(3, 48580249864647668366258673205nat, 21888242871839275222246405745257275088696311157297823662689037894645226208583nat) == 1643998633112836150194013384879041877908431527464414079778022069058667961042nat);
    lemma_fundamental_div_mod_converse(1643998633112836150194013384879041877908431527464414079778022069058667961042int * 1643998633112836150194013384879041877908431527464414079778022069058667961042int, m, 123478687691012556441495284387014312391513545854014542173377654592825091530int, 945115856265370696988509217392903128668706660062886357128473186053783123774int);
    assert(mod_pow(3, 97160499729295336732517346410nat, 21888242871839275222246405745257275088696311157297823662689037894645226208583nat) == 945115856265370696988509217392903128668706660062886357128473186053783123774nat);
    lemma_fundamental_div_mod_converse(945115856265370696988509217392903128668706660062886357128473186053783123774int * 945115856265370696988509217392903128668706660062886357128473186053783123774int, m, 40809305113908638716623438815912365489867867870610945833441591279869275510int, 13971131381914176592322877541301142377860112056127770402840329301701050300746int);
    lemma_fundamental_div_mod_converse(13971131381914176592322877541301142377860112056127770402840329301701050300746int * 3, m, 1int, 20025151273903254554722226878646152044884025011085487545831950010457924693655int);
    assert(mod_pow(3, 194320999458590673465034692821nat, 21888242871839275222246405745257275088696311157297823662689037894645226208583nat) == 20025151273903254554722226878646152044884025011085487545831950010457924693655nat);
    lemma_fundamental_div_mod_converse(20025151273903254554722226878646152044884025011085487545831950010457924693655int * 20025151273903254554722226878646152044884025011085487545831950010457924693655int, m, 18320642999563556743272478584630491248065248723393669037339069647747114008483int, 4158143925548964120212716456433057194652473342120287529275224083292207849436int);
    assert(mod_pow(3, 388641998917181346930069385642nat, 21888242871839275222246405745257275088696311157297823662689037894645226208583nat) == 4158143925548964120212716456433057194652473342120287529275224083292207849436nat);
    lemma_fundamental_div_mod_converse(4158143925548964120212716456433057194652473342120287529275224083292207849436int * 4158143925548964120212716456433057194652473342120287529275224083292207849436int, m, 789929141723145187789601883229356123007506794074206770651504874448794488797int, 12785070201414861032056118367920390842026993504626124248805188148578066773445int);
    assert(mod_pow(3, 777283997834362693860138771284nat, 21888242871839275222246405745257275088696311157297823662689037894645226208583nat) == 12785070201414861032056118367920390842026993504626124248805188148578066773445nat);
    lemma_fundamental_div_mod_converse(12785070201414861032056118367920390842026993504626124248805188148578066773445int * 12785070201414861032056118367920390842026993504626124248805188148578066773445int, m, 7467845683739473771130715555471464856601397016747197313584370569086689940164int, 2835042495129141765464662519596341414915043343924877967307864523808103940413int);
    lemma_fundamental_div_mod_converse(2835042495129141765464662519596341414915043343924877967307864523808103940413int * 3, m, 0int, 8505127485387425296393987558789024244745130031774633901923593571424311821239int);
    assert(mod_pow(3, 1554567995668725387720277542569nat, 21888242871839275222246405745257275088696311157297823662689037894645226208583nat) == 8505127485387425296393987558789024244745130031774633901923593571424311821239nat);
    lemma_fundamental_div_mod_converse(8505127485387425296393987558789024244745130031774633901923593571424311821239int * 8505127485387425296393987558789024244745130031774633901923593571424311821239int, m, 3304842420026295766429259917984173154066747361333291181579076822403454574159int, 7033574951657858400317662076310240192729958877689570767467420989076715688424int);
    lemma_fundamental_div_mod_converse(7033574951657858400317662076310240192729958877689570767467420989076715688424int * 3, m, 0int, 21100724854973575200952986228930720578189876633068712302402262967230147065272int);
    assert(mod_pow(3, 3109135991337450775440555085139nat, 21888242871839275222246405745257275088696311157297823662689037894645226208583nat) == 21100724854973575200952986228930720578189876633068712302402262967230147065272nat);
    lemma_fundamental_div_mod_converse(21100724854973575200952986228930720578189876633068712302402262967230147065272int * 21100724854973575200952986228930720578189876633068712302402262967230147065272int, m, 20341540982174139859866173852709018227322917681403999515978609867314651162985int, 1555238142775623684260624154331349619539747196465328614102216731271089533729int);
    assert(mod_pow(3, 6218271982674901550881110170278nat, 21888242871839275222246405745257275088696311157297823662689037894645226208583nat) == 1555238142775623684260624154331349619539747196465328614102216731271089533729nat);
    lemma_fundamental_div_mod_converse(1555238142775623684260624154331349619539747196465328614102216731271089533729int * 1555238142775623684260624154331349619539747196465328614102216731271089533729int, m, 110505246807914356691389682538558064658033285872850700447628199657265212364int, 20177422093185942196780096869113732647338869069643071263230080655282574125229int);
    lemma_fundamental_div_mod_converse(20177422093185942196780096869113732647338869069643071263230080655282574125229int * 3, m, 2int, 16755780535879276145847479116826647764623984894333566464312166176557269958521int);
    assert(mod_pow(3, 12436543965349803101762220340557nat, 21888242871839275222246405745257275088696311157297823662689037894645226208583nat) == 16755780535879276145847479116826647764623984894333566464312166176557269958521nat);
    lemma_fundamental_div_mod_converse(16755780535879276145847479116826647764623984894333566464312166176557269958521int * 16755780535879276145847479116826647764623984894333566464312166176557269958521int, m, 12826803092895267265249388315670137093757746731319621046798053788764795292057int, 3339693310595593248791851517515998331290287648109399398830741063930775382210int);
    lemma_fundamental_div_mod_converse(3339693310595593248791851517515998331290287648109399398830741063930775382210int * 3, m, 0int, 10019079931786779746375554552547994993870862944328198196492223191792326146630int);
    assert(mod_pow(3, 24873087930699606203524440681115nat, 21888242871839275222246405745257275088696311157297823662689037894645226208583nat) == 10019079931786779746375554552547994993870862944328198196492223191792326146630nat);
    lemma_fundamental_div_mod_converse(10019079931786779746375554552547994993870862944328198196492223191792326146630int * 10019079931786779746375554552547994993870862944328198196492223191792326146630int, m, 4586113342550710579643208914125541798133097092286419555652515832412630790683int, 18853530760247795876235501434829882907219526986297091690934587018546689324711int);
    assert(mod_pow(3, 49746175861399212407048881362230nat, 21888242871839275222246405745257275088696311157297823662689037894645226208583nat) == 18853530760247795876235501434829882907219526986297091690934587018546689324711nat);
    lemma_fundamental_div_mod_converse(18853530760247795876235501434829882907219526986297091690934587018546689324711int * 18853530760247795876235501434829882907219526986297091690934587018546689324711int, m, 16239568621788634044138313898375536542362267553763636020436597908437088512107int, 20092443237397728057427203480133340273378308044838570483112430844984892419140int);
    assert(mod_pow(3, 99492351722798424814097762724460nat, 21888242871839275222246405745257275088696311157297823662689037894645226208583nat) == 20092443237397728057427203480133340273378308044838570483112430844984892419140nat);
    lemma_fundamental_div_mod_converse(20092443237397728057427203480133340273378308044838570483112430844984892419140int * 20092443237397728057427203480133340273378308044838570483112430844984892419140int, m, 18443978240365995300528108330728910113188016342646517975557914365884088507665int, 7515373266272634985292088163630036868712125939540484976763457441950954050905int);
    assert(mod_pow(3, 198984703445596849628195525448920nat, 21888242871839275222246405745257275088696311157297823662689037894645226208583nat) == 7515373266272634985292088163630036868712125939540484976763457441950954050905nat);
    lemma_fundamental_div_mod_converse(7515373266272634985292088163630036868712125939540484976763457441950954050905int * 7515373266272634985292088163630036868712125939540484976763457441950954050905int, m, 2580418887989948258101483673475266513768418900028094112680045418306651707729int, 3558159237912355080834749858509202790068351651459668192008850989144424081018int);
    lemma_fundamental_div_mod_converse(3558159237912355080834749858509202790068351651459668192008850989144424081018int * 3, m, 0int, 10674477713737065242504249575527608370205054954379004576026552967433272243054int);
    assert(mod_pow(3, 397969406891193699256391050897841nat, 21888242871839275222246405745257275088696311157297823662689037894645226208583nat) == 10674477713737065242504249575527608370205054954379004576026552967433272243054nat);
    lemma_fundamental_div_mod_converse(10674477713737065242504249575527608370205054954379004576026552967433272243054int * 10674477713737065242504249575527608370205054954379004576026552967433272243054int, m, 5205738767074202199313098013613921764760054125721995021962189012997620255136int, 15789941341369982020341606762666738889432603974753096857056970630038038214628int);
    assert(mod_pow(3, 795938813782387398512782101795682nat, 21888242871839275222246405745257275088696311157297823662689037894645226208583nat) == 15789941341369982020341606762666738889432603974753096857056970630038038214628nat);
    lemma_fundamental_div_mod_converse(15789941341369982020341606762666738889432603974753096857056970630038038214628int * 15789941341369982020341606762666738889432603974753096857056970630038038214628int, m, 11390692666549082762995063455976161014054188690376003429116937128883687695594int, 15438573426130457326576995716891876754506639701510253123305386992520939095082int);
    assert(mod_pow(3, 1591877627564774797025564203591364nat, 21888242871839275222246405745257275088696311157297823662689037894645226208583nat) == 15438573426130457326576995716891876754506639701510253123305386992520939095082nat);
    lemma_fundamental_div_mod_converse(15438573426130457326576995716891876754506639701510253123305386992520939095082int * 15438573426130457326576995716891876754506639701510253123305386992520939095082int, m, 10889387093775104279972926445540950385238806041675265040665759429388657333947int, 1500831212619728829371636068421227498409266326485111410645022727253327919623int);
    lemma_fundamental_div_mod_converse(1500831212619728829371636068421227498409266326485111410645022727253327919623int * 3, m, 0int, 4502493637859186488114908205263682495227798979455334231935068181759983758869int);
    assert(mod_pow(3, 3183755255129549594051128407182729nat, 21888242871839275222246405745257275088696311157297823662689037894645226208583nat) == 4502493637859186488114908205263682495227798979455334231935068181759983758869nat);
    lemma_fundamental_div_mod_converse(4502493637859186488114908205263682495227798979455334231935068181759983758869int * 4502493637859186488114908205263682495227798979455334231935068181759983758869int, m, 926179825290788705379704580128386140178310481872927264082026893630617162146int, 2674978016360233541370516835904990849503153969783742577471704580819808260043int);
    assert(mod_pow(3, 6367510510259099188102256814365458nat, 21888242871839275222246405745257275088696311157297823662689037894645226208583nat) == 2674978016360233541370516835904990849503153969783742577471704580819808260043nat);
    lemma_fundamental_div_mod_converse(2674978016360233541370516835904990849503153969783742577471704580819808260043int * 2674978016360233541370516835904990849503153969783742577471704580819808260043int, m, 326911001029533557968981727828592531613864911655297772013245900767945786044int, 4736168815505027493761392652754298252431486908000224604613118152269275946197int);
    lemma_fundamental_div_mod_converse(4736168815505027493761392652754298252431486908000224604613118152269275946197int * 3, m, 0int, 14208506446515082481284177958262894757294460724000673813839354456807827838591int);
    assert(mod_pow(3, 12735021020518198376204513628730917nat, 21888242871839275222246405745257275088696311157297823662689037894645226208583nat) == 14208506446515082481284177958262894757294460724000673813839354456807827838591nat);
    lemma_fundamental_div_mod_converse(14208506446515082481284177958262894757294460724000673813839354456807827838591int * 14208506446515082481284177958262894757294460724000673813839354456807827838591int, m, 9223292003050425032980597423288639368590163207962709205992693306821140901328int, 6290623829552255086158911936709226502786738830936533997762640688313999167057int);
    lemma_fundamental_div_mod_converse(6290623829552255086158911936709226502786738830936533997762640688313999167057int * 3, m, 0int, 18871871488656765258476735810127679508360216492809601993287922064941997501171int);
    assert(mod_pow(3, 25470042041036396752409027257461835nat, 21888242871839275222246405745257275088696311157297823662689037894645226208583nat) == 18871871488656765258476735810127679508360216492809601993287922064941997501171nat);
    lemma_fundamental_div_mod_converse(18871871488656765258476735810127679508360216492809601993287922064941997501171int * 18871871488656765258476735810127679508360216492809601993287922064941997501171int, m, 16271179718248847060762265038958723767413683565676254048934207846703181906145int, 6215784594558097511519616657402489853947336658985706493513770006302846928706int);
    lemma_fundamental_div_mod_converse(6215784594558097511519616657402489853947336658985706493513770006302846928706int * 3, m, 0int, 18647353783674292534558849972207469561842009976957119480541310018908540786118int);
    assert(mod_pow(3, 50940084082072793504818054514923671nat, 21888242871839275222246405745257275088696311157297823662689037894645226208583nat) == 18647353783674292534558849972207469561842009976957119480541310018908540786118nat);
    lemma_fundamental_div_mod_converse(18647353783674292534558849972207469561842009976957119480541310018908540786118int * 18647353783674292534558849972207469561842009976957119480541310018908540786118int, m, 15886327887054033987179682057444667155580800679058455499827112936748207308981int, 9997030875326096251608573651451535370306228311568367637311799378013586326001int);
    assert(mod_pow(3, 101880168164145587009636109029847342nat, 21888242871839275222246405745257275088696311157297823662689037894645226208583nat) == 9997030875326096251608573651451535370306228311568367637311799378013586326001nat);
    lemma_fundamental_div_mod_converse(9997030875326096251608573651451535370306228311568367637311799378013586326001int * 9997030875326096251608573651451535370306228311568367637311799378013586326001int, m, 4565950172766207760807394389688300864272631524037448174770192328134282625554int, 9726957704600570027958331056840722054039553427664497802702879145427358722019int);
    assert(mod_pow(3, 203760336328291174019272218059694684nat, 21888242871839275222246405745257275088696311157297823662689037894645226208583nat) == 9726957704600570027958331056840722054039553427664497802702879145427358722019nat);
    lemma_fundamental_div_mod_converse(9726957704600570027958331056840722054039553427664497802702879145427358722019int * 9726957704600570027958331056840722054039553427664497802702879145427358722019int, m, 4322581156517383513458365401774186461390340113868741221007904451678676271009int, 11975860925005385697155724280055412112231957552002159268275829618327245566114int);
    lemma_fundamental_div_mod_converse(11975860925005385697155724280055412112231957552002159268275829618327245566114int * 3, m, 1int, 14039339903176881869220767094908961247999561498708654142138450960336510489759int);
    assert(mod_pow(3, 407520672656582348038544436119389369nat, 21888242871839275222246405745257275088696311157297823662689037894645226208583nat) == 14039339903176881869220767094908961247999561498708654142138450960336510489759nat);
    lemma_fundamental_div_mod_converse(14039339903176881869220767094908961247999561498708654142138450960336510489759int * 14039339903176881869220767094908961247999561498708654142138450960336510489759int, m, 9004974317537442083360623752544640822952257610978362477665351079256315172266int, 13818523499142131609819076485494414614309295042725919457075521333352351119003int);
    lemma_fundamental_div_mod_converse(13818523499142131609819076485494414614309295042725919457075521333352351119003int * 3, m, 1int, 19567327625587119607210823711225968754231573970879934708537526105411827148426int);
    assert(mod_pow(3, 815041345313164696077088872238778739nat, 21888242871839275222246405745257275088696311157297823662689037894645226208583nat) == 19567327625587119607210823711225968754231573970879934708537526105411827148426nat);
    lemma_fundamental_div_mod_converse(19567327625587119607210823711225968754231573970879934708537526105411827148426int * 19567327625587119607210823711225968754231573970879934708537526105411827148426int, m, 17492510141125427103166538154268905436975768376657839515456456514640692347337int, 3079850386165776373304302593529140662833478451685277064343379560295587684005int);
    assert(mod_pow(3, 1630082690626329392154177744477557478nat, 21888242871839275222246405745257275088696311157297823662689037894645226208583nat) == 3079850386165776373304302593529140662833478451685277064343379560295587684005nat);
}

/// A Lucas–Pratt witness for the BN254 base-field prime q: generator 3, and n - 1 = 2 * 3^2 * 13 * 29 * 67 * 229 * 311 * 983 * 11003 * 405928799 * 11465965001 * 13427688667394608761327070753331941386769.
pub proof fn lemma_witness_base_modulus()
    ensures
        pratt_witness(21888242871839275222246405745257275088696311157297823662689037894645226208583nat, 3, seq![2nat, 3nat, 3nat, 13nat, 29nat, 67nat, 229nat, 311nat, 983nat, 11003nat, 405928799nat, 11465965001nat, 13427688667394608761327070753331941386769nat]),
{
    lemma_prime_3();
    lemma_prime_13();
    lemma_prime_29();
    lemma_prime_67();
    lemma_prime_229();
    lemma_prime_311();
    lemma_prime_983();
    lemma_prime_11003();
    lemma_prime_405928799();
    lemma_prime_11465965001();
    lemma_prime_p134276_41_digits();
    lemma_pow_base_modulus_full();
    lemma_pow_base_modulus_by_2();
    lemma_pow_base_modulus_by_3();
    lemma_pow_base_modulus_by_13();
    lemma_pow_base_modulus_by_29();
    lemma_pow_base_modulus_by_67();
    lemma_pow_base_modulus_by_229();
    lemma_pow_base_modulus_by_311();
    lemma_pow_base_modulus_by_983();
    lemma_pow_base_modulus_by_11003();
    lemma_pow_base_modulus_by_405928799();
    lemma_pow_base_modulus_by_11465965001();
    lemma_pow_base_modulus_by_p134276_41_digits();
    let fs = seq![2nat, 3nat, 3nat, 13nat, 29nat, 67nat, 229nat, 311nat, 983nat, 11003nat, 405928799nat, 11465965001nat, 13427688667394608761327070753331941386769nat];
    assert(product(fs) == 21888242871839275222246405745257275088696311157297823662689037894645226208582nat) by {
        assert(product(Seq::<nat>::empty()) == 1);
        assert(seq![13427688667394608761327070753331941386769nat].len() == 1 && seq![13427688667394608761327070753331941386769nat][0] == 13427688667394608761327070753331941386769nat);
        assert(seq![13427688667394608761327070753331941386769nat].drop_first() =~= Seq::<nat>::empty());
        assert(product(seq![13427688667394608761327070753331941386769nat].drop_first()) == 1nat);
        assert(product(seq![13427688667394608761327070753331941386769nat]) == seq![13427688667394608761327070753331941386769nat][0] * product(seq![13427688667394608761327070753331941386769nat].drop_first()));
        assert(product(seq![13427688667394608761327070753331941386769nat]) == 13427688667394608761327070753331941386769nat);
        assert(seq![11465965001nat, 13427688667394608761327070753331941386769nat].len() == 2 && seq![11465965001nat, 13427688667394608761327070753331941386769nat][0] == 11465965001nat);
        assert(seq![11465965001nat, 13427688667394608761327070753331941386769nat].drop_first() =~= seq![13427688667394608761327070753331941386769nat]);
        assert(product(seq![11465965001nat, 13427688667394608761327070753331941386769nat].drop_first()) == 13427688667394608761327070753331941386769nat);
        assert(product(seq![11465965001nat, 13427688667394608761327070753331941386769nat]) == seq![11465965001nat, 13427688667394608761327070753331941386769nat][0] * product(seq![11465965001nat, 13427688667394608761327070753331941386769nat].drop_first()));
        assert(product(seq![11465965001nat, 13427688667394608761327070753331941386769nat]) == 153961408304670913913464155571554744076076758471769nat);
        assert(seq![405928799nat, 11465965001nat, 13427688667394608761327070753331941386769nat].len() == 3 && seq![405928799nat, 11465965001nat, 13427688667394608761327070753331941386769nat][0] == 405928799nat);
        assert(seq![405928799nat, 11465965001nat, 13427688667394608761327070753331941386769nat].drop_first() =~= seq![11465965001nat, 13427688667394608761327070753331941386769nat]);
        assert(product(seq![405928799nat, 11465965001nat, 13427688667394608761327070753331941386769nat].drop_first()) == 153961408304670913913464155571554744076076758471769nat);
        assert(product(seq![405928799nat, 11465965001nat, 13427688667394608761327070753331941386769nat]) == seq![405928799nat, 11465965001nat, 13427688667394608761327070753331941386769nat][0] * product(seq![405928799nat, 11465965001nat, 13427688667394608761327070753331941386769nat].drop_first()));
        assert(product(seq![405928799nat, 11465965001nat, 13427688667394608761327070753331941386769nat]) == 62497369565463690175124894600710375825554203198258265575431nat);
        assert(seq![11003nat, 405928799nat, 11465965001nat, 13427688667394608761327070753331941386769nat].len() == 4 && seq![11003nat, 405928799nat, 11465965001nat, 13427688667394608761327070753331941386769nat][0] == 11003nat);
        assert(seq![11003nat, 405928799nat, 11465965001nat, 13427688667394608761327070753331941386769nat].drop_first() =~= seq![405928799nat, 11465965001nat, 13427688667394608761327070753331941386769nat]);
        assert(product(seq![11003nat, 405928799nat, 11465965001nat, 13427688667394608761327070753331941386769nat].drop_first()) == 62497369565463690175124894600710375825554203198258265575431nat);
        assert(product(seq![11003nat, 405928799nat, 11465965001nat, 13427688667394608761327070753331941386769nat]) == seq![11003nat, 405928799nat, 11465965001nat, 13427688667394608761327070753331941386769nat][0] * product(seq![11003nat, 405928799nat, 11465965001nat, 13427688667394608761327070753331941386769nat].drop_first()));
        assert(product(seq![11003nat, 405928799nat, 11465965001nat, 13427688667394608761327070753331941386769nat]) == 687658557328796982996899215291616265208572897790435696126467293nat);
        assert(seq![983nat, 11003nat, 405928799nat, 11465965001nat, 13427688667394608761327070753331941386769nat].len() == 5 && seq![983nat, 11003nat, 405928799nat, 11465965001nat, 13427688667394608761327070753331941386769nat][0] == 983nat);
        assert(seq![983nat, 11003nat, 405928799nat, 11465965001nat, 13427688667394608761327070753331941386769nat].drop_first() =~= seq![11003nat, 405928799nat, 11465965001nat, 13427688667394608761327070753331941386769nat]);
        assert(product(seq![983nat, 11003nat, 405928799nat, 11465965001nat, 13427688667394608761327070753331941386769nat].drop_first()) == 687658557328796982996899215291616265208572897790435696126467293nat);
        assert(product(seq![983nat, 11003nat, 405928799nat, 11465965001nat, 13427688667394608761327070753331941386769nat]) == seq![983nat, 11003nat, 405928799nat, 11465965001nat, 13427688667394608761327070753331941386769nat][0] * product(seq![983nat, 11003nat, 405928799nat, 11465965001nat, 13427688667394608761327070753331941386769nat].drop_first()));
        assert(product(seq![983nat, 11003nat, 405928799nat, 11465965001nat, 13427688667394608761327070753331941386769nat]) == 675968361854207434285951928631658788700027158527998289292317349019nat);
        assert(seq![311nat, 983nat, 11003nat, 405928799nat, 11465965001nat, 13427688667394608761327070753331941386769nat].len() == 6 && seq![311nat, 983nat, 11003nat, 405928799nat, 11465965001nat, 13427688667394608761327070753331941386769nat][0] == 311nat);
        assert(seq![311nat, 983nat, 11003nat, 405928799nat, 11465965001nat, 13427688667394608761327070753331941386769nat].drop_first() =~= seq![983nat, 11003nat, 405928799nat, 11465965001nat, 13427688667394608761327070753331941386769nat]);
        assert(product(seq![311nat, 983nat, 11003nat, 405928799nat, 11465965001nat, 13427688667394608761327070753331941386769nat].drop_first()) == 675968361854207434285951928631658788700027158527998289292317349019nat);
        assert(product(seq![311nat, 983nat, 11003nat, 405928799nat, 11465965001nat, 13427688667394608761327070753331941386769nat]) == seq![311nat, 983nat, 11003nat, 405928799nat, 11465965001nat, 13427688667394608761327070753331941386769nat][0] * product(seq![311nat, 983nat, 11003nat, 405928799nat, 11465965001nat, 13427688667394608761327070753331941386769nat].drop_first()));
        assert(product(seq![311nat, 983nat, 11003nat, 405928799nat, 11465965001nat, 13427688667394608761327070753331941386769nat]) == 210226160536658512062931049804445883285708446302207467969910695544909nat);
        assert(seq![229nat, 311nat, 983nat, 11003nat, 405928799nat, 11465965001nat, 13427688667394608761327070753331941386769nat].len() == 7 && seq![229nat, 311nat, 983nat, 11003nat, 405928799nat, 11465965001nat, 13427688667394608761327070753331941386769nat][0] == 229nat);
        assert(seq![229nat, 311nat, 983nat, 11003nat, 405928799nat, 11465965001nat, 13427688667394608761327070753331941386769nat].drop_first() =~= seq![311nat, 983nat, 11003nat, 405928799nat, 11465965001nat, 13427688667394608761327070753331941386769nat]);
        assert(product(seq![229nat, 311nat, 983nat, 11003nat, 405928799nat, 11465965001nat, 13427688667394608761327070753331941386769nat].drop_first()) == 210226160536658512062931049804445883285708446302207467969910695544909nat);
        assert(product(seq![229nat, 311nat, 983nat, 11003nat, 405928799nat, 11465965001nat, 13427688667394608761327070753331941386769nat]) == seq![229nat, 311nat, 983nat, 11003nat, 405928799nat, 11465965001nat, 13427688667394608761327070753331941386769nat][0] * product(seq![229nat, 311nat, 983nat, 11003nat, 405928799nat, 11465965001nat, 13427688667394608761327070753331941386769nat].drop_first()));
        assert(product(seq![229nat, 311nat, 983nat, 11003nat, 405928799nat, 11465965001nat, 13427688667394608761327070753331941386769nat]) == 48141790762894799262411210405218107272427234203205510165109549279784161nat);
        assert(seq![67nat, 229nat, 311nat, 983nat, 11003nat, 405928799nat, 11465965001nat, 13427688667394608761327070753331941386769nat].len() == 8 && seq![67nat, 229nat, 311nat, 983nat, 11003nat, 405928799nat, 11465965001nat, 13427688667394608761327070753331941386769nat][0] == 67nat);
        assert(seq![67nat, 229nat, 311nat, 983nat, 11003nat, 405928799nat, 11465965001nat, 13427688667394608761327070753331941386769nat].drop_first() =~= seq![229nat, 311nat, 983nat, 11003nat, 405928799nat, 11465965001nat, 13427688667394608761327070753331941386769nat]);
        assert(product(seq![67nat, 229nat, 311nat, 983nat, 11003nat, 405928799nat, 11465965001nat, 13427688667394608761327070753331941386769nat].drop_first()) == 48141790762894799262411210405218107272427234203205510165109549279784161nat);
        assert(product(seq![67nat, 229nat, 311nat, 983nat, 11003nat, 405928799nat, 11465965001nat, 13427688667394608761327070753331941386769nat]) == seq![67nat, 229nat, 311nat, 983nat, 11003nat, 405928799nat, 11465965001nat, 13427688667394608761327070753331941386769nat][0] * product(seq![67nat, 229nat, 311nat, 983nat, 11003nat, 405928799nat, 11465965001nat, 13427688667394608761327070753331941386769nat].drop_first()));
        assert(product(seq![67nat, 229nat, 311nat, 983nat, 11003nat, 405928799nat, 11465965001nat, 13427688667394608761327070753331941386769nat]) == 3225499981113951550581551097149613187252624691614769181062339801745538787nat);
        assert(seq![29nat, 67nat, 229nat, 311nat, 983nat, 11003nat, 405928799nat, 11465965001nat, 13427688667394608761327070753331941386769nat].len() == 9 && seq![29nat, 67nat, 229nat, 311nat, 983nat, 11003nat, 405928799nat, 11465965001nat, 13427688667394608761327070753331941386769nat][0] == 29nat);
        assert(seq![29nat, 67nat, 229nat, 311nat, 983nat, 11003nat, 405928799nat, 11465965001nat, 13427688667394608761327070753331941386769nat].drop_first() =~= seq![67nat, 229nat, 311nat, 983nat, 11003nat, 405928799nat, 11465965001nat, 13427688667394608761327070753331941386769nat]);
        assert(product(seq![29nat, 67nat, 229nat, 311nat, 983nat, 11003nat, 405928799nat, 11465965001nat, 13427688667394608761327070753331941386769nat].drop_first()) == 3225499981113951550581551097149613187252624691614769181062339801745538787nat);
        assert(product(seq![29nat, 67nat, 229nat, 311nat, 983nat, 11003nat, 405928799nat, 11465965001nat, 13427688667394608761327070753331941386769nat]) == seq![29nat, 67nat, 229nat, 311nat, 983nat, 11003nat, 405928799nat, 11465965001nat, 13427688667394608761327070753331941386769nat][0] * product(seq![29nat, 67nat, 229nat, 311nat, 983nat, 11003nat, 405928799nat, 11465965001nat, 13427688667394608761327070753331941386769nat].drop_first()));
        assert(product(seq![29nat, 67nat, 229nat, 311nat, 983nat, 11003nat, 405928799nat, 11465965001nat, 13427688667394608761327070753331941386769nat]) == 93539499452304594966864981817338782430326116056828306250807854250620624823nat);
        assert(seq![13nat, 29nat, 67nat, 229nat, 311nat, 983nat, 11003nat, 405928799nat, 11465965001nat, 13427688667394608761327070753331941386769nat].len() == 10 && seq![13nat, 29nat, 67nat, 229nat, 311nat, 983nat, 11003nat, 405928799nat, 11465965001nat, 13427688667394608761327070753331941386769nat][0] == 13nat);
        assert(seq![13nat, 29nat, 67nat, 229nat, 311nat, 983nat, 11003nat, 405928799nat, 11465965001nat, 13427688667394608761327070753331941386769nat].drop_first() =~= seq![29nat, 67nat, 229nat, 311nat, 983nat, 11003nat, 405928799nat, 11465965001nat, 13427688667394608761327070753331941386769nat]);
        assert(product(seq![13nat, 29nat, 67nat, 229nat, 311nat, 983nat, 11003nat, 405928799nat, 11465965001nat, 13427688667394608761327070753331941386769nat].drop_first()) == 93539499452304594966864981817338782430326116056828306250807854250620624823nat);
        assert(product(seq![13nat, 29nat, 67nat, 229nat, 311nat, 983nat, 11003nat, 405928799nat, 11465965001nat, 13427688667394608761327070753331941386769nat]) == seq![13nat, 29nat, 67nat, 229nat, 311nat, 983nat, 11003nat, 405928799nat, 11465965001nat, 13427688667394608761327070753331941386769nat][0] * product(seq![13nat, 29nat, 67nat, 229nat, 311nat, 983nat, 11003nat, 405928799nat, 11465965001nat, 13427688667394608761327070753331941386769nat].drop_first()));
        assert(product(seq![13nat, 29nat, 67nat, 229nat, 311nat, 983nat, 11003nat, 405928799nat, 11465965001nat, 13427688667394608761327070753331941386769nat]) == 1216013492879959734569244763625404171594239508738767981260502105258068122699nat);
        assert(seq![3nat, 13nat, 29nat, 67nat, 229nat, 311nat, 983nat, 11003nat, 405928799nat, 11465965001nat, 13427688667394608761327070753331941386769nat].len() == 11 && seq![3nat, 13nat, 29nat, 67nat, 229nat, 311nat, 983nat, 11003nat, 405928799nat, 11465965001nat, 13427688667394608761327070753331941386769nat][0] == 3nat);
        assert(seq![3nat, 13nat, 29nat, 67nat, 229nat, 311nat, 983nat, 11003nat, 405928799nat, 11465965001nat, 13427688667394608761327070753331941386769nat].drop_first() =~= seq![13nat, 29nat, 67nat, 229nat, 311nat, 983nat, 11003nat, 405928799nat, 11465965001nat, 13427688667394608761327070753331941386769nat]);
        assert(product(seq![3nat, 13nat, 29nat, 67nat, 229nat, 311nat, 983nat, 11003nat, 405928799nat, 11465965001nat, 13427688667394608761327070753331941386769nat].drop_first()) == 1216013492879959734569244763625404171594239508738767981260502105258068122699nat);
        assert(product(seq![3nat, 13nat, 29nat, 67nat, 229nat, 311nat, 983nat, 11003nat, 405928799nat, 11465965001nat, 13427688667394608761327070753331941386769nat]) == seq![3nat, 13nat, 29nat, 67nat, 229nat, 311nat, 983nat, 11003nat, 405928799nat, 11465965001nat, 13427688667394608761327070753331941386769nat][0] * product(seq![3nat, 13nat, 29nat, 67nat, 229nat, 311nat, 983nat, 11003nat, 405928799nat, 11465965001nat, 13427688667394608761327070753331941386769nat].drop_first()));
        assert(product(seq![3nat, 13nat, 29nat, 67nat, 229nat, 311nat, 983nat, 11003nat, 405928799nat, 11465965001nat, 13427688667394608761327070753331941386769nat]) == 3648040478639879203707734290876212514782718526216303943781506315774204368097nat);
        assert(seq![3nat, 3nat, 13nat, 29nat, 67nat, 229nat, 311nat, 983nat, 11003nat, 405928799nat, 11465965001nat, 13427688667394608761327070753331941386769nat].len() == 12 && seq![3nat, 3nat, 13nat, 29nat, 67nat, 229nat, 311nat, 983nat, 11003nat, 405928799nat, 11465965001nat, 13427688667394608761327070753331941386769nat][0] == 3nat);
        assert(seq![3nat, 3nat, 13nat, 29nat, 67nat, 229nat, 311nat, 983nat, 11003nat, 405928799nat, 11465965001nat, 13427688667394608761327070753331941386769nat].drop_first() =~= seq![3nat, 13nat, 29nat, 67nat, 229nat, 311nat, 983nat, 11003nat, 405928799nat, 11465965001nat, 13427688667394608761327070753331941386769nat]);
        assert(product(seq![3nat, 3nat, 13nat, 29nat, 67nat, 229nat, 311nat, 983nat, 11003nat, 405928799nat, 11465965001nat, 13427688667394608761327070753331941386769nat].drop_first()) == 3648040478639879203707734290876212514782718526216303943781506315774204368097nat);
        assert(product(seq![3nat, 3nat, 13nat, 29nat, 67nat, 229nat, 311nat, 983nat, 11003nat, 405928799nat, 11465965001nat, 13427688667394608761327070753331941386769nat]) == seq![3nat, 3nat, 13nat, 29nat, 67nat, 229nat, 311nat, 983nat, 11003nat, 405928799nat, 11465965001nat, 13427688667394608761327070753331941386769nat][0] * product(seq![3nat, 3nat, 13nat, 29nat, 67nat, 229nat, 311nat, 983nat, 11003nat, 405928799nat, 11465965001nat, 13427688667394608761327070753331941386769nat].drop_first()));
        assert(product(seq![3nat, 3nat, 13nat, 29nat, 67nat, 229nat, 311nat, 983nat, 11003nat, 405928799nat, 11465965001nat, 13427688667394608761327070753331941386769nat]) == 10944121435919637611123202872628637544348155578648911831344518947322613104291nat);
        assert(seq![2nat, 3nat, 3nat, 13nat, 29nat, 67nat, 229nat, 311nat, 983nat, 11003nat, 405928799nat, 11465965001nat, 13427688667394608761327070753331941386769nat].len() == 13 && seq![2nat, 3nat, 3nat, 13nat, 29nat, 67nat, 229nat, 311nat, 983nat, 11003nat, 405928799nat, 11465965001nat, 13427688667394608761327070753331941386769nat][0] == 2nat);
        assert(seq![2nat, 3nat, 3nat, 13nat, 29nat, 67nat, 229nat, 311nat, 983nat, 11003nat, 405928799nat, 11465965001nat, 13427688667394608761327070753331941386769nat].drop_first() =~= seq![3nat, 3nat, 13nat, 29nat, 67nat, 229nat, 311nat, 983nat, 11003nat, 405928799nat, 11465965001nat, 13427688667394608761327070753331941386769nat]);
        assert(product(seq![2nat, 3nat, 3nat, 13nat, 29nat, 67nat, 229nat, 311nat, 983nat, 11003nat, 405928799nat, 11465965001nat, 13427688667394608761327070753331941386769nat].drop_first()) == 10944121435919637611123202872628637544348155578648911831344518947322613104291nat);
        assert(product(seq![2nat, 3nat, 3nat, 13nat, 29nat, 67nat, 229nat, 311nat, 983nat, 11003nat, 405928799nat, 11465965001nat, 13427688667394608761327070753331941386769nat]) == seq![2nat, 3nat, 3nat, 13nat, 29nat, 67nat, 229nat, 311nat, 983nat, 11003nat, 405928799nat, 11465965001nat, 13427688667394608761327070753331941386769nat][0] * product(seq![2nat, 3nat, 3nat, 13nat, 29nat, 67nat, 229nat, 311nat, 983nat, 11003nat, 405928799nat, 11465965001nat, 13427688667394608761327070753331941386769nat].drop_first()));
        assert(product(seq![2nat, 3nat, 3nat, 13nat, 29nat, 67nat, 229nat, 311nat, 983nat, 11003nat, 405928799nat, 11465965001nat, 13427688667394608761327070753331941386769nat]) == 21888242871839275222246405745257275088696311157297823662689037894645226208582nat);
    }
    assert forall|i: int| 0 <= i < fs.len() implies mod_pow(3, ((21888242871839275222246405745257275088696311157297823662689037894645226208582nat) / fs[i]) as nat, 21888242871839275222246405745257275088696311157297823662689037894645226208583nat) != 1 && is_prime(#[trigger] fs[i]) by {
        if i == 0 {
            assert(fs[i] == 2);
            lemma_fundamental_div_mod_converse(21888242871839275222246405745257275088696311157297823662689037894645226208582int, 2int, 10944121435919637611123202872628637544348155578648911831344518947322613104291int, 0int);
        } else if i == 1 {
            assert(fs[i] == 3);
            lemma_fundamental_div_mod_converse(21888242871839275222246405745257275088696311157297823662689037894645226208582int, 3int, 7296080957279758407415468581752425029565437052432607887563012631548408736194int, 0int);
        } else if i == 2 {
            assert(fs[i] == 3);
            lemma_fundamental_div_mod_converse(21888242871839275222246405745257275088696311157297823662689037894645226208582int, 3int, 7296080957279758407415468581752425029565437052432607887563012631548408736194int, 0int);
        } else if i == 3 {
            assert(fs[i] == 13);
            lemma_fundamental_div_mod_converse(21888242871839275222246405745257275088696311157297823662689037894645226208582int, 13int, 1683710990141482709403569672712098083745870089022909512514541376511171246814int, 0int);
        } else if i == 4 {
            assert(fs[i] == 29);
            lemma_fundamental_div_mod_converse(21888242871839275222246405745257275088696311157297823662689037894645226208582int, 29int, 754766995580664662836082956733009485817114177837855988368587513608456076158int, 0int);
        } else if i == 5 {
            assert(fs[i] == 67);
            lemma_fundamental_div_mod_converse(21888242871839275222246405745257275088696311157297823662689037894645226208582int, 67int, 326690192117004107794722473809810075950691211302952591980433401412615316546int, 0int);
        } else if i == 6 {
            assert(fs[i] == 229);
            lemma_fundamental_div_mod_converse(21888242871839275222246405745257275088696311157297823662689037894645226208582int, 229int, 95581846601918232411556356966188974186446773612654251802135536657839415758int, 0int);
        } else if i == 7 {
            assert(fs[i] == 311);
            lemma_fundamental_div_mod_converse(21888242871839275222246405745257275088696311157297823662689037894645226208582int, 311int, 70380202160254904251596159952595739835036370280700397629225202233585936362int, 0int);
        } else if i == 8 {
            assert(fs[i] == 983);
            lemma_fundamental_div_mod_converse(21888242871839275222246405745257275088696311157297823662689037894645226208582int, 983int, 22266778099531307448877320188461114027157997108136138008839306098316608554int, 0int);
        } else if i == 9 {
            assert(fs[i] == 11003);
            lemma_fundamental_div_mod_converse(21888242871839275222246405745257275088696311157297823662689037894645226208582int, 11003int, 1989297725333025104266691424634851866645125071098593443850680532095358194int, 0int);
        } else if i == 10 {
            assert(fs[i] == 405928799);
            lemma_fundamental_div_mod_converse(21888242871839275222246405745257275088696311157297823662689037894645226208582int, 405928799int, 53921384552563552462426805409431605981462554858784049127514694749818int, 0int);
        } else if i == 11 {
            assert(fs[i] == 11465965001);
            lemma_fundamental_div_mod_converse(21888242871839275222246405745257275088696311157297823662689037894645226208582int, 11465965001int, 1908975203563790751034266631218829680491566255156566185884264578582int, 0int);
        } else if i == 12 {
            assert(fs[i] == 13427688667394608761327070753331941386769nat);
            lemma_fundamental_div_mod_converse(21888242871839275222246405745257275088696311157297823662689037894645226208582int, 13427688667394608761327070753331941386769int, 1630082690626329392154177744477557478int, 0int);
        }
    }
}

/// The BN254 base-field prime q is prime.
pub proof fn lemma_prime_base_modulus()
    ensures
        is_prime(21888242871839275222246405745257275088696311157297823662689037894645226208583nat),
{
    lemma_witness_base_modulus();
    lemma_pratt_prime(21888242871839275222246405745257275088696311157297823662689037894645226208583nat, 3, seq![2nat, 3nat, 3nat, 13nat, 29nat, 67nat, 229nat, 311nat, 983nat, 11003nat, 405928799nat, 11465965001nat, 13427688667394608761327070753331941386769nat]);
}

} // verus!
