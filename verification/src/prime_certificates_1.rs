//! Lucas–Pratt certificates that the BN254 base-field prime q is prime,
//! built bottom-up from the primes in the factorization of q - 1, of
//! their predecessors, and so on. Each power is checked one
//! square-and-multiply step at a time.
use crate::primality::{is_prime, lemma_pratt_prime, mod_pow, pratt_witness, product};
use vstd::arithmetic::div_mod::lemma_fundamental_div_mod_converse;
use vstd::prelude::*;

verus! {

pub proof fn lemma_pow_3_full()
    ensures
        mod_pow(2, 2, 3) == 1,
{
    let m = 3int;
    lemma_fundamental_div_mod_converse(1, m, 0, 1);
    assert(mod_pow(2, 0, 3) == 1);
    lemma_fundamental_div_mod_converse(1int * 1int, m, 0int, 1int);
    lemma_fundamental_div_mod_converse(1int * 2, m, 0int, 2int);
    assert(mod_pow(2, 1, 3) == 2);
    lemma_fundamental_div_mod_converse(2int * 2int, m, 1int, 1int);
    assert(mod_pow(2, 2, 3) == 1);
}

pub proof fn lemma_pow_3_by_2()
    ensures
        mod_pow(2, 1, 3) == 2,
{
    let m = 3int;
    lemma_fundamental_div_mod_converse(1, m, 0, 1);
    assert(mod_pow(2, 0, 3) == 1);
    lemma_fundamental_div_mod_converse(1int * 1int, m, 0int, 1int);
    lemma_fundamental_div_mod_converse(1int * 2, m, 0int, 2int);
    assert(mod_pow(2, 1, 3) == 2);
}

/// A Lucas–Pratt witness for 3: generator 2, and n - 1 = 2.
pub proof fn lemma_witness_3()
    ensures
        pratt_witness(3, 2, seq![2nat]),
{
    lemma_pow_3_full();
    lemma_pow_3_by_2();
    let fs = seq![2nat];
    assert(product(fs) == 2nat) by {
        assert(product(Seq::<nat>::empty()) == 1);
        assert(seq![2nat].len() == 1 && seq![2nat][0] == 2nat);
        assert(seq![2nat].drop_first() =~= Seq::<nat>::empty());
        assert(product(seq![2nat].drop_first()) == 1nat);
        assert(product(seq![2nat]) == seq![2nat][0] * product(seq![2nat].drop_first()));
        assert(product(seq![2nat]) == 2nat);
    }
    assert forall|i: int| 0 <= i < fs.len() implies mod_pow(2, ((2nat) / fs[i]) as nat, 3) != 1 && is_prime(#[trigger] fs[i]) by {
        if i == 0 {
            assert(fs[i] == 2);
            lemma_fundamental_div_mod_converse(2int, 2int, 1int, 0int);
        }
    }
}

/// 3 is prime.
pub proof fn lemma_prime_3()
    ensures
        is_prime(3),
{
    lemma_witness_3();
    lemma_pratt_prime(3, 2, seq![2nat]);
}

pub proof fn lemma_pow_5_full()
    ensures
        mod_pow(2, 4, 5) == 1,
{
    let m = 5int;
    lemma_fundamental_div_mod_converse(1, m, 0, 1);
    assert(mod_pow(2, 0, 5) == 1);
    lemma_fundamental_div_mod_converse(1int * 1int, m, 0int, 1int);
    lemma_fundamental_div_mod_converse(1int * 2, m, 0int, 2int);
    assert(mod_pow(2, 1, 5) == 2);
    lemma_fundamental_div_mod_converse(2int * 2int, m, 0int, 4int);
    assert(mod_pow(2, 2, 5) == 4);
    lemma_fundamental_div_mod_converse(4int * 4int, m, 3int, 1int);
    assert(mod_pow(2, 4, 5) == 1);
}

pub proof fn lemma_pow_5_by_2()
    ensures
        mod_pow(2, 2, 5) == 4,
{
    let m = 5int;
    lemma_fundamental_div_mod_converse(1, m, 0, 1);
    assert(mod_pow(2, 0, 5) == 1);
    lemma_fundamental_div_mod_converse(1int * 1int, m, 0int, 1int);
    lemma_fundamental_div_mod_converse(1int * 2, m, 0int, 2int);
    assert(mod_pow(2, 1, 5) == 2);
    lemma_fundamental_div_mod_converse(2int * 2int, m, 0int, 4int);
    assert(mod_pow(2, 2, 5) == 4);
}

/// A Lucas–Pratt witness for 5: generator 2, and n - 1 = 2^2.
pub proof fn lemma_witness_5()
    ensures
        pratt_witness(5, 2, seq![2nat, 2nat]),
{
    lemma_pow_5_full();
    lemma_pow_5_by_2();
    let fs = seq![2nat, 2nat];
    assert(product(fs) == 4nat) by {
        assert(product(Seq::<nat>::empty()) == 1);
        assert(seq![2nat].len() == 1 && seq![2nat][0] == 2nat);
        assert(seq![2nat].drop_first() =~= Seq::<nat>::empty());
        assert(product(seq![2nat].drop_first()) == 1nat);
        assert(product(seq![2nat]) == seq![2nat][0] * product(seq![2nat].drop_first()));
        assert(product(seq![2nat]) == 2nat);
        assert(seq![2nat, 2nat].len() == 2 && seq![2nat, 2nat][0] == 2nat);
        assert(seq![2nat, 2nat].drop_first() =~= seq![2nat]);
        assert(product(seq![2nat, 2nat].drop_first()) == 2nat);
        assert(product(seq![2nat, 2nat]) == seq![2nat, 2nat][0] * product(seq![2nat, 2nat].drop_first()));
        assert(product(seq![2nat, 2nat]) == 4nat);
    }
    assert forall|i: int| 0 <= i < fs.len() implies mod_pow(2, ((4nat) / fs[i]) as nat, 5) != 1 && is_prime(#[trigger] fs[i]) by {
        if i == 0 {
            assert(fs[i] == 2);
            lemma_fundamental_div_mod_converse(4int, 2int, 2int, 0int);
        } else if i == 1 {
            assert(fs[i] == 2);
            lemma_fundamental_div_mod_converse(4int, 2int, 2int, 0int);
        }
    }
}

/// 5 is prime.
pub proof fn lemma_prime_5()
    ensures
        is_prime(5),
{
    lemma_witness_5();
    lemma_pratt_prime(5, 2, seq![2nat, 2nat]);
}

pub proof fn lemma_pow_7_full()
    ensures
        mod_pow(3, 6, 7) == 1,
{
    let m = 7int;
    lemma_fundamental_div_mod_converse(1, m, 0, 1);
    assert(mod_pow(3, 0, 7) == 1);
    lemma_fundamental_div_mod_converse(1int * 1int, m, 0int, 1int);
    lemma_fundamental_div_mod_converse(1int * 3, m, 0int, 3int);
    assert(mod_pow(3, 1, 7) == 3);
    lemma_fundamental_div_mod_converse(3int * 3int, m, 1int, 2int);
    lemma_fundamental_div_mod_converse(2int * 3, m, 0int, 6int);
    assert(mod_pow(3, 3, 7) == 6);
    lemma_fundamental_div_mod_converse(6int * 6int, m, 5int, 1int);
    assert(mod_pow(3, 6, 7) == 1);
}

pub proof fn lemma_pow_7_by_2()
    ensures
        mod_pow(3, 3, 7) == 6,
{
    let m = 7int;
    lemma_fundamental_div_mod_converse(1, m, 0, 1);
    assert(mod_pow(3, 0, 7) == 1);
    lemma_fundamental_div_mod_converse(1int * 1int, m, 0int, 1int);
    lemma_fundamental_div_mod_converse(1int * 3, m, 0int, 3int);
    assert(mod_pow(3, 1, 7) == 3);
    lemma_fundamental_div_mod_converse(3int * 3int, m, 1int, 2int);
    lemma_fundamental_div_mod_converse(2int * 3, m, 0int, 6int);
    assert(mod_pow(3, 3, 7) == 6);
}

pub proof fn lemma_pow_7_by_3()
    ensures
        mod_pow(3, 2, 7) == 2,
{
    let m = 7int;
    lemma_fundamental_div_mod_converse(1, m, 0, 1);
    assert(mod_pow(3, 0, 7) == 1);
    lemma_fundamental_div_mod_converse(1int * 1int, m, 0int, 1int);
    lemma_fundamental_div_mod_converse(1int * 3, m, 0int, 3int);
    assert(mod_pow(3, 1, 7) == 3);
    lemma_fundamental_div_mod_converse(3int * 3int, m, 1int, 2int);
    assert(mod_pow(3, 2, 7) == 2);
}

/// A Lucas–Pratt witness for 7: generator 3, and n - 1 = 2 * 3.
pub proof fn lemma_witness_7()
    ensures
        pratt_witness(7, 3, seq![2nat, 3nat]),
{
    lemma_prime_3();
    lemma_pow_7_full();
    lemma_pow_7_by_2();
    lemma_pow_7_by_3();
    let fs = seq![2nat, 3nat];
    assert(product(fs) == 6nat) by {
        assert(product(Seq::<nat>::empty()) == 1);
        assert(seq![3nat].len() == 1 && seq![3nat][0] == 3nat);
        assert(seq![3nat].drop_first() =~= Seq::<nat>::empty());
        assert(product(seq![3nat].drop_first()) == 1nat);
        assert(product(seq![3nat]) == seq![3nat][0] * product(seq![3nat].drop_first()));
        assert(product(seq![3nat]) == 3nat);
        assert(seq![2nat, 3nat].len() == 2 && seq![2nat, 3nat][0] == 2nat);
        assert(seq![2nat, 3nat].drop_first() =~= seq![3nat]);
        assert(product(seq![2nat, 3nat].drop_first()) == 3nat);
        assert(product(seq![2nat, 3nat]) == seq![2nat, 3nat][0] * product(seq![2nat, 3nat].drop_first()));
        assert(product(seq![2nat, 3nat]) == 6nat);
    }
    assert forall|i: int| 0 <= i < fs.len() implies mod_pow(3, ((6nat) / fs[i]) as nat, 7) != 1 && is_prime(#[trigger] fs[i]) by {
        if i == 0 {
            assert(fs[i] == 2);
            lemma_fundamental_div_mod_converse(6int, 2int, 3int, 0int);
        } else if i == 1 {
            assert(fs[i] == 3);
            lemma_fundamental_div_mod_converse(6int, 3int, 2int, 0int);
        }
    }
}

/// 7 is prime.
pub proof fn lemma_prime_7()
    ensures
        is_prime(7),
{
    lemma_witness_7();
    lemma_pratt_prime(7, 3, seq![2nat, 3nat]);
}

pub proof fn lemma_pow_11_full()
    ensures
        mod_pow(2, 10, 11) == 1,
{
    let m = 11int;
    lemma_fundamental_div_mod_converse(1, m, 0, 1);
    assert(mod_pow(2, 0, 11) == 1);
    lemma_fundamental_div_mod_converse(1int * 1int, m, 0int, 1int);
    lemma_fundamental_div_mod_converse(1int * 2, m, 0int, 2int);
    assert(mod_pow(2, 1, 11) == 2);
    lemma_fundamental_div_mod_converse(2int * 2int, m, 0int, 4int);
    assert(mod_pow(2, 2, 11) == 4);
    lemma_fundamental_div_mod_converse(4int * 4int, m, 1int, 5int);
    lemma_fundamental_div_mod_converse(5int * 2, m, 0int, 10int);
    assert(mod_pow(2, 5, 11) == 10);
    lemma_fundamental_div_mod_converse(10int * 10int, m, 9int, 1int);
    assert(mod_pow(2, 10, 11) == 1);
}

pub proof fn lemma_pow_11_by_2()
    ensures
        mod_pow(2, 5, 11) == 10,
{
    let m = 11int;
    lemma_fundamental_div_mod_converse(1, m, 0, 1);
    assert(mod_pow(2, 0, 11) == 1);
    lemma_fundamental_div_mod_converse(1int * 1int, m, 0int, 1int);
    lemma_fundamental_div_mod_converse(1int * 2, m, 0int, 2int);
    assert(mod_pow(2, 1, 11) == 2);
    lemma_fundamental_div_mod_converse(2int * 2int, m, 0int, 4int);
    assert(mod_pow(2, 2, 11) == 4);
    lemma_fundamental_div_mod_converse(4int * 4int, m, 1int, 5int);
    lemma_fundamental_div_mod_converse(5int * 2, m, 0int, 10int);
    assert(mod_pow(2, 5, 11) == 10);
}

pub proof fn lemma_pow_11_by_5()
    ensures
        mod_pow(2, 2, 11) == 4,
{
    let m = 11int;
    lemma_fundamental_div_mod_converse(1, m, 0, 1);
    assert(mod_pow(2, 0, 11) == 1);
    lemma_fundamental_div_mod_converse(1int * 1int, m, 0int, 1int);
    lemma_fundamental_div_mod_converse(1int * 2, m, 0int, 2int);
    assert(mod_pow(2, 1, 11) == 2);
    lemma_fundamental_div_mod_converse(2int * 2int, m, 0int, 4int);
    assert(mod_pow(2, 2, 11) == 4);
}

/// A Lucas–Pratt witness for 11: generator 2, and n - 1 = 2 * 5.
pub proof fn lemma_witness_11()
    ensures
        pratt_witness(11, 2, seq![2nat, 5nat]),
{
    lemma_prime_5();
    lemma_pow_11_full();
    lemma_pow_11_by_2();
    lemma_pow_11_by_5();
    let fs = seq![2nat, 5nat];
    assert(product(fs) == 10nat) by {
        assert(product(Seq::<nat>::empty()) == 1);
        assert(seq![5nat].len() == 1 && seq![5nat][0] == 5nat);
        assert(seq![5nat].drop_first() =~= Seq::<nat>::empty());
        assert(product(seq![5nat].drop_first()) == 1nat);
        assert(product(seq![5nat]) == seq![5nat][0] * product(seq![5nat].drop_first()));
        assert(product(seq![5nat]) == 5nat);
        assert(seq![2nat, 5nat].len() == 2 && seq![2nat, 5nat][0] == 2nat);
        assert(seq![2nat, 5nat].drop_first() =~= seq![5nat]);
        assert(product(seq![2nat, 5nat].drop_first()) == 5nat);
        assert(product(seq![2nat, 5nat]) == seq![2nat, 5nat][0] * product(seq![2nat, 5nat].drop_first()));
        assert(product(seq![2nat, 5nat]) == 10nat);
    }
    assert forall|i: int| 0 <= i < fs.len() implies mod_pow(2, ((10nat) / fs[i]) as nat, 11) != 1 && is_prime(#[trigger] fs[i]) by {
        if i == 0 {
            assert(fs[i] == 2);
            lemma_fundamental_div_mod_converse(10int, 2int, 5int, 0int);
        } else if i == 1 {
            assert(fs[i] == 5);
            lemma_fundamental_div_mod_converse(10int, 5int, 2int, 0int);
        }
    }
}

/// 11 is prime.
pub proof fn lemma_prime_11()
    ensures
        is_prime(11),
{
    lemma_witness_11();
    lemma_pratt_prime(11, 2, seq![2nat, 5nat]);
}

pub proof fn lemma_pow_13_full()
    ensures
        mod_pow(2, 12, 13) == 1,
{
    let m = 13int;
    lemma_fundamental_div_mod_converse(1, m, 0, 1);
    assert(mod_pow(2, 0, 13) == 1);
    lemma_fundamental_div_mod_converse(1int * 1int, m, 0int, 1int);
    lemma_fundamental_div_mod_converse(1int * 2, m, 0int, 2int);
    assert(mod_pow(2, 1, 13) == 2);
    lemma_fundamental_div_mod_converse(2int * 2int, m, 0int, 4int);
    lemma_fundamental_div_mod_converse(4int * 2, m, 0int, 8int);
    assert(mod_pow(2, 3, 13) == 8);
    lemma_fundamental_div_mod_converse(8int * 8int, m, 4int, 12int);
    assert(mod_pow(2, 6, 13) == 12);
    lemma_fundamental_div_mod_converse(12int * 12int, m, 11int, 1int);
    assert(mod_pow(2, 12, 13) == 1);
}

pub proof fn lemma_pow_13_by_2()
    ensures
        mod_pow(2, 6, 13) == 12,
{
    let m = 13int;
    lemma_fundamental_div_mod_converse(1, m, 0, 1);
    assert(mod_pow(2, 0, 13) == 1);
    lemma_fundamental_div_mod_converse(1int * 1int, m, 0int, 1int);
    lemma_fundamental_div_mod_converse(1int * 2, m, 0int, 2int);
    assert(mod_pow(2, 1, 13) == 2);
    lemma_fundamental_div_mod_converse(2int * 2int, m, 0int, 4int);
    lemma_fundamental_div_mod_converse(4int * 2, m, 0int, 8int);
    assert(mod_pow(2, 3, 13) == 8);
    lemma_fundamental_div_mod_converse(8int * 8int, m, 4int, 12int);
    assert(mod_pow(2, 6, 13) == 12);
}

pub proof fn lemma_pow_13_by_3()
    ensures
        mod_pow(2, 4, 13) == 3,
{
    let m = 13int;
    lemma_fundamental_div_mod_converse(1, m, 0, 1);
    assert(mod_pow(2, 0, 13) == 1);
    lemma_fundamental_div_mod_converse(1int * 1int, m, 0int, 1int);
    lemma_fundamental_div_mod_converse(1int * 2, m, 0int, 2int);
    assert(mod_pow(2, 1, 13) == 2);
    lemma_fundamental_div_mod_converse(2int * 2int, m, 0int, 4int);
    assert(mod_pow(2, 2, 13) == 4);
    lemma_fundamental_div_mod_converse(4int * 4int, m, 1int, 3int);
    assert(mod_pow(2, 4, 13) == 3);
}

/// A Lucas–Pratt witness for 13: generator 2, and n - 1 = 2^2 * 3.
pub proof fn lemma_witness_13()
    ensures
        pratt_witness(13, 2, seq![2nat, 2nat, 3nat]),
{
    lemma_prime_3();
    lemma_pow_13_full();
    lemma_pow_13_by_2();
    lemma_pow_13_by_3();
    let fs = seq![2nat, 2nat, 3nat];
    assert(product(fs) == 12nat) by {
        assert(product(Seq::<nat>::empty()) == 1);
        assert(seq![3nat].len() == 1 && seq![3nat][0] == 3nat);
        assert(seq![3nat].drop_first() =~= Seq::<nat>::empty());
        assert(product(seq![3nat].drop_first()) == 1nat);
        assert(product(seq![3nat]) == seq![3nat][0] * product(seq![3nat].drop_first()));
        assert(product(seq![3nat]) == 3nat);
        assert(seq![2nat, 3nat].len() == 2 && seq![2nat, 3nat][0] == 2nat);
        assert(seq![2nat, 3nat].drop_first() =~= seq![3nat]);
        assert(product(seq![2nat, 3nat].drop_first()) == 3nat);
        assert(product(seq![2nat, 3nat]) == seq![2nat, 3nat][0] * product(seq![2nat, 3nat].drop_first()));
        assert(product(seq![2nat, 3nat]) == 6nat);
        assert(seq![2nat, 2nat, 3nat].len() == 3 && seq![2nat, 2nat, 3nat][0] == 2nat);
        assert(seq![2nat, 2nat, 3nat].drop_first() =~= seq![2nat, 3nat]);
        assert(product(seq![2nat, 2nat, 3nat].drop_first()) == 6nat);
        assert(product(seq![2nat, 2nat, 3nat]) == seq![2nat, 2nat, 3nat][0] * product(seq![2nat, 2nat, 3nat].drop_first()));
        assert(product(seq![2nat, 2nat, 3nat]) == 12nat);
    }
    assert forall|i: int| 0 <= i < fs.len() implies mod_pow(2, ((12nat) / fs[i]) as nat, 13) != 1 && is_prime(#[trigger] fs[i]) by {
        if i == 0 {
            assert(fs[i] == 2);
            lemma_fundamental_div_mod_converse(12int, 2int, 6int, 0int);
        } else if i == 1 {
            assert(fs[i] == 2);
            lemma_fundamental_div_mod_converse(12int, 2int, 6int, 0int);
        } else if i == 2 {
            assert(fs[i] == 3);
            lemma_fundamental_div_mod_converse(12int, 3int, 4int, 0int);
        }
    }
}

/// 13 is prime.
pub proof fn lemma_prime_13()
    ensures
        is_prime(13),
{
    lemma_witness_13();
    lemma_pratt_prime(13, 2, seq![2nat, 2nat, 3nat]);
}

pub proof fn lemma_pow_17_full()
    ensures
        mod_pow(3, 16, 17) == 1,
{
    let m = 17int;
    lemma_fundamental_div_mod_converse(1, m, 0, 1);
    assert(mod_pow(3, 0, 17) == 1);
    lemma_fundamental_div_mod_converse(1int * 1int, m, 0int, 1int);
    lemma_fundamental_div_mod_converse(1int * 3, m, 0int, 3int);
    assert(mod_pow(3, 1, 17) == 3);
    lemma_fundamental_div_mod_converse(3int * 3int, m, 0int, 9int);
    assert(mod_pow(3, 2, 17) == 9);
    lemma_fundamental_div_mod_converse(9int * 9int, m, 4int, 13int);
    assert(mod_pow(3, 4, 17) == 13);
    lemma_fundamental_div_mod_converse(13int * 13int, m, 9int, 16int);
    assert(mod_pow(3, 8, 17) == 16);
    lemma_fundamental_div_mod_converse(16int * 16int, m, 15int, 1int);
    assert(mod_pow(3, 16, 17) == 1);
}

pub proof fn lemma_pow_17_by_2()
    ensures
        mod_pow(3, 8, 17) == 16,
{
    let m = 17int;
    lemma_fundamental_div_mod_converse(1, m, 0, 1);
    assert(mod_pow(3, 0, 17) == 1);
    lemma_fundamental_div_mod_converse(1int * 1int, m, 0int, 1int);
    lemma_fundamental_div_mod_converse(1int * 3, m, 0int, 3int);
    assert(mod_pow(3, 1, 17) == 3);
    lemma_fundamental_div_mod_converse(3int * 3int, m, 0int, 9int);
    assert(mod_pow(3, 2, 17) == 9);
    lemma_fundamental_div_mod_converse(9int * 9int, m, 4int, 13int);
    assert(mod_pow(3, 4, 17) == 13);
    lemma_fundamental_div_mod_converse(13int * 13int, m, 9int, 16int);
    assert(mod_pow(3, 8, 17) == 16);
}

/// A Lucas–Pratt witness for 17: generator 3, and n - 1 = 2^4.
pub proof fn lemma_witness_17()
    ensures
        pratt_witness(17, 3, seq![2nat, 2nat, 2nat, 2nat]),
{
    lemma_pow_17_full();
    lemma_pow_17_by_2();
    let fs = seq![2nat, 2nat, 2nat, 2nat];
    assert(product(fs) == 16nat) by {
        assert(product(Seq::<nat>::empty()) == 1);
        assert(seq![2nat].len() == 1 && seq![2nat][0] == 2nat);
        assert(seq![2nat].drop_first() =~= Seq::<nat>::empty());
        assert(product(seq![2nat].drop_first()) == 1nat);
        assert(product(seq![2nat]) == seq![2nat][0] * product(seq![2nat].drop_first()));
        assert(product(seq![2nat]) == 2nat);
        assert(seq![2nat, 2nat].len() == 2 && seq![2nat, 2nat][0] == 2nat);
        assert(seq![2nat, 2nat].drop_first() =~= seq![2nat]);
        assert(product(seq![2nat, 2nat].drop_first()) == 2nat);
        assert(product(seq![2nat, 2nat]) == seq![2nat, 2nat][0] * product(seq![2nat, 2nat].drop_first()));
        assert(product(seq![2nat, 2nat]) == 4nat);
        assert(seq![2nat, 2nat, 2nat].len() == 3 && seq![2nat, 2nat, 2nat][0] == 2nat);
        assert(seq![2nat, 2nat, 2nat].drop_first() =~= seq![2nat, 2nat]);
        assert(product(seq![2nat, 2nat, 2nat].drop_first()) == 4nat);
        assert(product(seq![2nat, 2nat, 2nat]) == seq![2nat, 2nat, 2nat][0] * product(seq![2nat, 2nat, 2nat].drop_first()));
        assert(product(seq![2nat, 2nat, 2nat]) == 8nat);
        assert(seq![2nat, 2nat, 2nat, 2nat].len() == 4 && seq![2nat, 2nat, 2nat, 2nat][0] == 2nat);
        assert(seq![2nat, 2nat, 2nat, 2nat].drop_first() =~= seq![2nat, 2nat, 2nat]);
        assert(product(seq![2nat, 2nat, 2nat, 2nat].drop_first()) == 8nat);
        assert(product(seq![2nat, 2nat, 2nat, 2nat]) == seq![2nat, 2nat, 2nat, 2nat][0] * product(seq![2nat, 2nat, 2nat, 2nat].drop_first()));
        assert(product(seq![2nat, 2nat, 2nat, 2nat]) == 16nat);
    }
    assert forall|i: int| 0 <= i < fs.len() implies mod_pow(3, ((16nat) / fs[i]) as nat, 17) != 1 && is_prime(#[trigger] fs[i]) by {
        if i == 0 {
            assert(fs[i] == 2);
            lemma_fundamental_div_mod_converse(16int, 2int, 8int, 0int);
        } else if i == 1 {
            assert(fs[i] == 2);
            lemma_fundamental_div_mod_converse(16int, 2int, 8int, 0int);
        } else if i == 2 {
            assert(fs[i] == 2);
            lemma_fundamental_div_mod_converse(16int, 2int, 8int, 0int);
        } else if i == 3 {
            assert(fs[i] == 2);
            lemma_fundamental_div_mod_converse(16int, 2int, 8int, 0int);
        }
    }
}

/// 17 is prime.
pub proof fn lemma_prime_17()
    ensures
        is_prime(17),
{
    lemma_witness_17();
    lemma_pratt_prime(17, 3, seq![2nat, 2nat, 2nat, 2nat]);
}

pub proof fn lemma_pow_19_full()
    ensures
        mod_pow(2, 18, 19) == 1,
{
    let m = 19int;
    lemma_fundamental_div_mod_converse(1, m, 0, 1);
    assert(mod_pow(2, 0, 19) == 1);
    lemma_fundamental_div_mod_converse(1int * 1int, m, 0int, 1int);
    lemma_fundamental_div_mod_converse(1int * 2, m, 0int, 2int);
    assert(mod_pow(2, 1, 19) == 2);
    lemma_fundamental_div_mod_converse(2int * 2int, m, 0int, 4int);
    assert(mod_pow(2, 2, 19) == 4);
    lemma_fundamental_div_mod_converse(4int * 4int, m, 0int, 16int);
    assert(mod_pow(2, 4, 19) == 16);
    lemma_fundamental_div_mod_converse(16int * 16int, m, 13int, 9int);
    lemma_fundamental_div_mod_converse(9int * 2, m, 0int, 18int);
    assert(mod_pow(2, 9, 19) == 18);
    lemma_fundamental_div_mod_converse(18int * 18int, m, 17int, 1int);
    assert(mod_pow(2, 18, 19) == 1);
}

pub proof fn lemma_pow_19_by_2()
    ensures
        mod_pow(2, 9, 19) == 18,
{
    let m = 19int;
    lemma_fundamental_div_mod_converse(1, m, 0, 1);
    assert(mod_pow(2, 0, 19) == 1);
    lemma_fundamental_div_mod_converse(1int * 1int, m, 0int, 1int);
    lemma_fundamental_div_mod_converse(1int * 2, m, 0int, 2int);
    assert(mod_pow(2, 1, 19) == 2);
    lemma_fundamental_div_mod_converse(2int * 2int, m, 0int, 4int);
    assert(mod_pow(2, 2, 19) == 4);
    lemma_fundamental_div_mod_converse(4int * 4int, m, 0int, 16int);
    assert(mod_pow(2, 4, 19) == 16);
    lemma_fundamental_div_mod_converse(16int * 16int, m, 13int, 9int);
    lemma_fundamental_div_mod_converse(9int * 2, m, 0int, 18int);
    assert(mod_pow(2, 9, 19) == 18);
}

pub proof fn lemma_pow_19_by_3()
    ensures
        mod_pow(2, 6, 19) == 7,
{
    let m = 19int;
    lemma_fundamental_div_mod_converse(1, m, 0, 1);
    assert(mod_pow(2, 0, 19) == 1);
    lemma_fundamental_div_mod_converse(1int * 1int, m, 0int, 1int);
    lemma_fundamental_div_mod_converse(1int * 2, m, 0int, 2int);
    assert(mod_pow(2, 1, 19) == 2);
    lemma_fundamental_div_mod_converse(2int * 2int, m, 0int, 4int);
    lemma_fundamental_div_mod_converse(4int * 2, m, 0int, 8int);
    assert(mod_pow(2, 3, 19) == 8);
    lemma_fundamental_div_mod_converse(8int * 8int, m, 3int, 7int);
    assert(mod_pow(2, 6, 19) == 7);
}

/// A Lucas–Pratt witness for 19: generator 2, and n - 1 = 2 * 3^2.
pub proof fn lemma_witness_19()
    ensures
        pratt_witness(19, 2, seq![2nat, 3nat, 3nat]),
{
    lemma_prime_3();
    lemma_pow_19_full();
    lemma_pow_19_by_2();
    lemma_pow_19_by_3();
    let fs = seq![2nat, 3nat, 3nat];
    assert(product(fs) == 18nat) by {
        assert(product(Seq::<nat>::empty()) == 1);
        assert(seq![3nat].len() == 1 && seq![3nat][0] == 3nat);
        assert(seq![3nat].drop_first() =~= Seq::<nat>::empty());
        assert(product(seq![3nat].drop_first()) == 1nat);
        assert(product(seq![3nat]) == seq![3nat][0] * product(seq![3nat].drop_first()));
        assert(product(seq![3nat]) == 3nat);
        assert(seq![3nat, 3nat].len() == 2 && seq![3nat, 3nat][0] == 3nat);
        assert(seq![3nat, 3nat].drop_first() =~= seq![3nat]);
        assert(product(seq![3nat, 3nat].drop_first()) == 3nat);
        assert(product(seq![3nat, 3nat]) == seq![3nat, 3nat][0] * product(seq![3nat, 3nat].drop_first()));
        assert(product(seq![3nat, 3nat]) == 9nat);
        assert(seq![2nat, 3nat, 3nat].len() == 3 && seq![2nat, 3nat, 3nat][0] == 2nat);
        assert(seq![2nat, 3nat, 3nat].drop_first() =~= seq![3nat, 3nat]);
        assert(product(seq![2nat, 3nat, 3nat].drop_first()) == 9nat);
        assert(product(seq![2nat, 3nat, 3nat]) == seq![2nat, 3nat, 3nat][0] * product(seq![2nat, 3nat, 3nat].drop_first()));
        assert(product(seq![2nat, 3nat, 3nat]) == 18nat);
    }
    assert forall|i: int| 0 <= i < fs.len() implies mod_pow(2, ((18nat) / fs[i]) as nat, 19) != 1 && is_prime(#[trigger] fs[i]) by {
        if i == 0 {
            assert(fs[i] == 2);
            lemma_fundamental_div_mod_converse(18int, 2int, 9int, 0int);
        } else if i == 1 {
            assert(fs[i] == 3);
            lemma_fundamental_div_mod_converse(18int, 3int, 6int, 0int);
        } else if i == 2 {
            assert(fs[i] == 3);
            lemma_fundamental_div_mod_converse(18int, 3int, 6int, 0int);
        }
    }
}

/// 19 is prime.
pub proof fn lemma_prime_19()
    ensures
        is_prime(19),
{
    lemma_witness_19();
    lemma_pratt_prime(19, 2, seq![2nat, 3nat, 3nat]);
}

pub proof fn lemma_pow_29_full()
    ensures
        mod_pow(2, 28, 29) == 1,
{
    let m = 29int;
    lemma_fundamental_div_mod_converse(1, m, 0, 1);
    assert(mod_pow(2, 0, 29) == 1);
    lemma_fundamental_div_mod_converse(1int * 1int, m, 0int, 1int);
    lemma_fundamental_div_mod_converse(1int * 2, m, 0int, 2int);
    assert(mod_pow(2, 1, 29) == 2);
    lemma_fundamental_div_mod_converse(2int * 2int, m, 0int, 4int);
    lemma_fundamental_div_mod_converse(4int * 2, m, 0int, 8int);
    assert(mod_pow(2, 3, 29) == 8);
    lemma_fundamental_div_mod_converse(8int * 8int, m, 2int, 6int);
    lemma_fundamental_div_mod_converse(6int * 2, m, 0int, 12int);
    assert(mod_pow(2, 7, 29) == 12);
    lemma_fundamental_div_mod_converse(12int * 12int, m, 4int, 28int);
    assert(mod_pow(2, 14, 29) == 28);
    lemma_fundamental_div_mod_converse(28int * 28int, m, 27int, 1int);
    assert(mod_pow(2, 28, 29) == 1);
}

pub proof fn lemma_pow_29_by_2()
    ensures
        mod_pow(2, 14, 29) == 28,
{
    let m = 29int;
    lemma_fundamental_div_mod_converse(1, m, 0, 1);
    assert(mod_pow(2, 0, 29) == 1);
    lemma_fundamental_div_mod_converse(1int * 1int, m, 0int, 1int);
    lemma_fundamental_div_mod_converse(1int * 2, m, 0int, 2int);
    assert(mod_pow(2, 1, 29) == 2);
    lemma_fundamental_div_mod_converse(2int * 2int, m, 0int, 4int);
    lemma_fundamental_div_mod_converse(4int * 2, m, 0int, 8int);
    assert(mod_pow(2, 3, 29) == 8);
    lemma_fundamental_div_mod_converse(8int * 8int, m, 2int, 6int);
    lemma_fundamental_div_mod_converse(6int * 2, m, 0int, 12int);
    assert(mod_pow(2, 7, 29) == 12);
    lemma_fundamental_div_mod_converse(12int * 12int, m, 4int, 28int);
    assert(mod_pow(2, 14, 29) == 28);
}

pub proof fn lemma_pow_29_by_7()
    ensures
        mod_pow(2, 4, 29) == 16,
{
    let m = 29int;
    lemma_fundamental_div_mod_converse(1, m, 0, 1);
    assert(mod_pow(2, 0, 29) == 1);
    lemma_fundamental_div_mod_converse(1int * 1int, m, 0int, 1int);
    lemma_fundamental_div_mod_converse(1int * 2, m, 0int, 2int);
    assert(mod_pow(2, 1, 29) == 2);
    lemma_fundamental_div_mod_converse(2int * 2int, m, 0int, 4int);
    assert(mod_pow(2, 2, 29) == 4);
    lemma_fundamental_div_mod_converse(4int * 4int, m, 0int, 16int);
    assert(mod_pow(2, 4, 29) == 16);
}

/// A Lucas–Pratt witness for 29: generator 2, and n - 1 = 2^2 * 7.
pub proof fn lemma_witness_29()
    ensures
        pratt_witness(29, 2, seq![2nat, 2nat, 7nat]),
{
    lemma_prime_7();
    lemma_pow_29_full();
    lemma_pow_29_by_2();
    lemma_pow_29_by_7();
    let fs = seq![2nat, 2nat, 7nat];
    assert(product(fs) == 28nat) by {
        assert(product(Seq::<nat>::empty()) == 1);
        assert(seq![7nat].len() == 1 && seq![7nat][0] == 7nat);
        assert(seq![7nat].drop_first() =~= Seq::<nat>::empty());
        assert(product(seq![7nat].drop_first()) == 1nat);
        assert(product(seq![7nat]) == seq![7nat][0] * product(seq![7nat].drop_first()));
        assert(product(seq![7nat]) == 7nat);
        assert(seq![2nat, 7nat].len() == 2 && seq![2nat, 7nat][0] == 2nat);
        assert(seq![2nat, 7nat].drop_first() =~= seq![7nat]);
        assert(product(seq![2nat, 7nat].drop_first()) == 7nat);
        assert(product(seq![2nat, 7nat]) == seq![2nat, 7nat][0] * product(seq![2nat, 7nat].drop_first()));
        assert(product(seq![2nat, 7nat]) == 14nat);
        assert(seq![2nat, 2nat, 7nat].len() == 3 && seq![2nat, 2nat, 7nat][0] == 2nat);
        assert(seq![2nat, 2nat, 7nat].drop_first() =~= seq![2nat, 7nat]);
        assert(product(seq![2nat, 2nat, 7nat].drop_first()) == 14nat);
        assert(product(seq![2nat, 2nat, 7nat]) == seq![2nat, 2nat, 7nat][0] * product(seq![2nat, 2nat, 7nat].drop_first()));
        assert(product(seq![2nat, 2nat, 7nat]) == 28nat);
    }
    assert forall|i: int| 0 <= i < fs.len() implies mod_pow(2, ((28nat) / fs[i]) as nat, 29) != 1 && is_prime(#[trigger] fs[i]) by {
        if i == 0 {
            assert(fs[i] == 2);
            lemma_fundamental_div_mod_converse(28int, 2int, 14int, 0int);
        } else if i == 1 {
            assert(fs[i] == 2);
            lemma_fundamental_div_mod_converse(28int, 2int, 14int, 0int);
        } else if i == 2 {
            assert(fs[i] == 7);
            lemma_fundamental_div_mod_converse(28int, 7int, 4int, 0int);
        }
    }
}

/// 29 is prime.
pub proof fn lemma_prime_29()
    ensures
        is_prime(29),
{
    lemma_witness_29();
    lemma_pratt_prime(29, 2, seq![2nat, 2nat, 7nat]);
}

pub proof fn lemma_pow_31_full()
    ensures
        mod_pow(3, 30, 31) == 1,
{
    let m = 31int;
    lemma_fundamental_div_mod_converse(1, m, 0, 1);
    assert(mod_pow(3, 0, 31) == 1);
    lemma_fundamental_div_mod_converse(1int * 1int, m, 0int, 1int);
    lemma_fundamental_div_mod_converse(1int * 3, m, 0int, 3int);
    assert(mod_pow(3, 1, 31) == 3);
    lemma_fundamental_div_mod_converse(3int * 3int, m, 0int, 9int);
    lemma_fundamental_div_mod_converse(9int * 3, m, 0int, 27int);
    assert(mod_pow(3, 3, 31) == 27);
    lemma_fundamental_div_mod_converse(27int * 27int, m, 23int, 16int);
    lemma_fundamental_div_mod_converse(16int * 3, m, 1int, 17int);
    assert(mod_pow(3, 7, 31) == 17);
    lemma_fundamental_div_mod_converse(17int * 17int, m, 9int, 10int);
    lemma_fundamental_div_mod_converse(10int * 3, m, 0int, 30int);
    assert(mod_pow(3, 15, 31) == 30);
    lemma_fundamental_div_mod_converse(30int * 30int, m, 29int, 1int);
    assert(mod_pow(3, 30, 31) == 1);
}

pub proof fn lemma_pow_31_by_2()
    ensures
        mod_pow(3, 15, 31) == 30,
{
    let m = 31int;
    lemma_fundamental_div_mod_converse(1, m, 0, 1);
    assert(mod_pow(3, 0, 31) == 1);
    lemma_fundamental_div_mod_converse(1int * 1int, m, 0int, 1int);
    lemma_fundamental_div_mod_converse(1int * 3, m, 0int, 3int);
    assert(mod_pow(3, 1, 31) == 3);
    lemma_fundamental_div_mod_converse(3int * 3int, m, 0int, 9int);
    lemma_fundamental_div_mod_converse(9int * 3, m, 0int, 27int);
    assert(mod_pow(3, 3, 31) == 27);
    lemma_fundamental_div_mod_converse(27int * 27int, m, 23int, 16int);
    lemma_fundamental_div_mod_converse(16int * 3, m, 1int, 17int);
    assert(mod_pow(3, 7, 31) == 17);
    lemma_fundamental_div_mod_converse(17int * 17int, m, 9int, 10int);
    lemma_fundamental_div_mod_converse(10int * 3, m, 0int, 30int);
    assert(mod_pow(3, 15, 31) == 30);
}

pub proof fn lemma_pow_31_by_3()
    ensures
        mod_pow(3, 10, 31) == 25,
{
    let m = 31int;
    lemma_fundamental_div_mod_converse(1, m, 0, 1);
    assert(mod_pow(3, 0, 31) == 1);
    lemma_fundamental_div_mod_converse(1int * 1int, m, 0int, 1int);
    lemma_fundamental_div_mod_converse(1int * 3, m, 0int, 3int);
    assert(mod_pow(3, 1, 31) == 3);
    lemma_fundamental_div_mod_converse(3int * 3int, m, 0int, 9int);
    assert(mod_pow(3, 2, 31) == 9);
    lemma_fundamental_div_mod_converse(9int * 9int, m, 2int, 19int);
    lemma_fundamental_div_mod_converse(19int * 3, m, 1int, 26int);
    assert(mod_pow(3, 5, 31) == 26);
    lemma_fundamental_div_mod_converse(26int * 26int, m, 21int, 25int);
    assert(mod_pow(3, 10, 31) == 25);
}

pub proof fn lemma_pow_31_by_5()
    ensures
        mod_pow(3, 6, 31) == 16,
{
    let m = 31int;
    lemma_fundamental_div_mod_converse(1, m, 0, 1);
    assert(mod_pow(3, 0, 31) == 1);
    lemma_fundamental_div_mod_converse(1int * 1int, m, 0int, 1int);
    lemma_fundamental_div_mod_converse(1int * 3, m, 0int, 3int);
    assert(mod_pow(3, 1, 31) == 3);
    lemma_fundamental_div_mod_converse(3int * 3int, m, 0int, 9int);
    lemma_fundamental_div_mod_converse(9int * 3, m, 0int, 27int);
    assert(mod_pow(3, 3, 31) == 27);
    lemma_fundamental_div_mod_converse(27int * 27int, m, 23int, 16int);
    assert(mod_pow(3, 6, 31) == 16);
}

/// A Lucas–Pratt witness for 31: generator 3, and n - 1 = 2 * 3 * 5.
pub proof fn lemma_witness_31()
    ensures
        pratt_witness(31, 3, seq![2nat, 3nat, 5nat]),
{
    lemma_prime_3();
    lemma_prime_5();
    lemma_pow_31_full();
    lemma_pow_31_by_2();
    lemma_pow_31_by_3();
    lemma_pow_31_by_5();
    let fs = seq![2nat, 3nat, 5nat];
    assert(product(fs) == 30nat) by {
        assert(product(Seq::<nat>::empty()) == 1);
        assert(seq![5nat].len() == 1 && seq![5nat][0] == 5nat);
        assert(seq![5nat].drop_first() =~= Seq::<nat>::empty());
        assert(product(seq![5nat].drop_first()) == 1nat);
        assert(product(seq![5nat]) == seq![5nat][0] * product(seq![5nat].drop_first()));
        assert(product(seq![5nat]) == 5nat);
        assert(seq![3nat, 5nat].len() == 2 && seq![3nat, 5nat][0] == 3nat);
        assert(seq![3nat, 5nat].drop_first() =~= seq![5nat]);
        assert(product(seq![3nat, 5nat].drop_first()) == 5nat);
        assert(product(seq![3nat, 5nat]) == seq![3nat, 5nat][0] * product(seq![3nat, 5nat].drop_first()));
        assert(product(seq![3nat, 5nat]) == 15nat);
        assert(seq![2nat, 3nat, 5nat].len() == 3 && seq![2nat, 3nat, 5nat][0] == 2nat);
        assert(seq![2nat, 3nat, 5nat].drop_first() =~= seq![3nat, 5nat]);
        assert(product(seq![2nat, 3nat, 5nat].drop_first()) == 15nat);
        assert(product(seq![2nat, 3nat, 5nat]) == seq![2nat, 3nat, 5nat][0] * product(seq![2nat, 3nat, 5nat].drop_first()));
        assert(product(seq![2nat, 3nat, 5nat]) == 30nat);
    }
    assert forall|i: int| 0 <= i < fs.len() implies mod_pow(3, ((30nat) / fs[i]) as nat, 31) != 1 && is_prime(#[trigger] fs[i]) by {
        if i == 0 {
            assert(fs[i] == 2);
            lemma_fundamental_div_mod_converse(30int, 2int, 15int, 0int);
        } else if i == 1 {
            assert(fs[i] == 3);
            lemma_fundamental_div_mod_converse(30int, 3int, 10int, 0int);
        } else if i == 2 {
            assert(fs[i] == 5);
            lemma_fundamental_div_mod_converse(30int, 5int, 6int, 0int);
        }
    }
}

/// 31 is prime.
pub proof fn lemma_prime_31()
    ensures
        is_prime(31),
{
    lemma_witness_31();
    lemma_pratt_prime(31, 3, seq![2nat, 3nat, 5nat]);
}

pub proof fn lemma_pow_37_full()
    ensures
        mod_pow(2, 36, 37) == 1,
{
    let m = 37int;
    lemma_fundamental_div_mod_converse(1, m, 0, 1);
    assert(mod_pow(2, 0, 37) == 1);
    lemma_fundamental_div_mod_converse(1int * 1int, m, 0int, 1int);
    lemma_fundamental_div_mod_converse(1int * 2, m, 0int, 2int);
    assert(mod_pow(2, 1, 37) == 2);
    lemma_fundamental_div_mod_converse(2int * 2int, m, 0int, 4int);
    assert(mod_pow(2, 2, 37) == 4);
    lemma_fundamental_div_mod_converse(4int * 4int, m, 0int, 16int);
    assert(mod_pow(2, 4, 37) == 16);
    lemma_fundamental_div_mod_converse(16int * 16int, m, 6int, 34int);
    lemma_fundamental_div_mod_converse(34int * 2, m, 1int, 31int);
    assert(mod_pow(2, 9, 37) == 31);
    lemma_fundamental_div_mod_converse(31int * 31int, m, 25int, 36int);
    assert(mod_pow(2, 18, 37) == 36);
    lemma_fundamental_div_mod_converse(36int * 36int, m, 35int, 1int);
    assert(mod_pow(2, 36, 37) == 1);
}

pub proof fn lemma_pow_37_by_2()
    ensures
        mod_pow(2, 18, 37) == 36,
{
    let m = 37int;
    lemma_fundamental_div_mod_converse(1, m, 0, 1);
    assert(mod_pow(2, 0, 37) == 1);
    lemma_fundamental_div_mod_converse(1int * 1int, m, 0int, 1int);
    lemma_fundamental_div_mod_converse(1int * 2, m, 0int, 2int);
    assert(mod_pow(2, 1, 37) == 2);
    lemma_fundamental_div_mod_converse(2int * 2int, m, 0int, 4int);
    assert(mod_pow(2, 2, 37) == 4);
    lemma_fundamental_div_mod_converse(4int * 4int, m, 0int, 16int);
    assert(mod_pow(2, 4, 37) == 16);
    lemma_fundamental_div_mod_converse(16int * 16int, m, 6int, 34int);
    lemma_fundamental_div_mod_converse(34int * 2, m, 1int, 31int);
    assert(mod_pow(2, 9, 37) == 31);
    lemma_fundamental_div_mod_converse(31int * 31int, m, 25int, 36int);
    assert(mod_pow(2, 18, 37) == 36);
}

pub proof fn lemma_pow_37_by_3()
    ensures
        mod_pow(2, 12, 37) == 26,
{
    let m = 37int;
    lemma_fundamental_div_mod_converse(1, m, 0, 1);
    assert(mod_pow(2, 0, 37) == 1);
    lemma_fundamental_div_mod_converse(1int * 1int, m, 0int, 1int);
    lemma_fundamental_div_mod_converse(1int * 2, m, 0int, 2int);
    assert(mod_pow(2, 1, 37) == 2);
    lemma_fundamental_div_mod_converse(2int * 2int, m, 0int, 4int);
    lemma_fundamental_div_mod_converse(4int * 2, m, 0int, 8int);
    assert(mod_pow(2, 3, 37) == 8);
    lemma_fundamental_div_mod_converse(8int * 8int, m, 1int, 27int);
    assert(mod_pow(2, 6, 37) == 27);
    lemma_fundamental_div_mod_converse(27int * 27int, m, 19int, 26int);
    assert(mod_pow(2, 12, 37) == 26);
}

/// A Lucas–Pratt witness for 37: generator 2, and n - 1 = 2^2 * 3^2.
pub proof fn lemma_witness_37()
    ensures
        pratt_witness(37, 2, seq![2nat, 2nat, 3nat, 3nat]),
{
    lemma_prime_3();
    lemma_pow_37_full();
    lemma_pow_37_by_2();
    lemma_pow_37_by_3();
    let fs = seq![2nat, 2nat, 3nat, 3nat];
    assert(product(fs) == 36nat) by {
        assert(product(Seq::<nat>::empty()) == 1);
        assert(seq![3nat].len() == 1 && seq![3nat][0] == 3nat);
        assert(seq![3nat].drop_first() =~= Seq::<nat>::empty());
        assert(product(seq![3nat].drop_first()) == 1nat);
        assert(product(seq![3nat]) == seq![3nat][0] * product(seq![3nat].drop_first()));
        assert(product(seq![3nat]) == 3nat);
        assert(seq![3nat, 3nat].len() == 2 && seq![3nat, 3nat][0] == 3nat);
        assert(seq![3nat, 3nat].drop_first() =~= seq![3nat]);
        assert(product(seq![3nat, 3nat].drop_first()) == 3nat);
        assert(product(seq![3nat, 3nat]) == seq![3nat, 3nat][0] * product(seq![3nat, 3nat].drop_first()));
        assert(product(seq![3nat, 3nat]) == 9nat);
        assert(seq![2nat, 3nat, 3nat].len() == 3 && seq![2nat, 3nat, 3nat][0] == 2nat);
        assert(seq![2nat, 3nat, 3nat].drop_first() =~= seq![3nat, 3nat]);
        assert(product(seq![2nat, 3nat, 3nat].drop_first()) == 9nat);
        assert(product(seq![2nat, 3nat, 3nat]) == seq![2nat, 3nat, 3nat][0] * product(seq![2nat, 3nat, 3nat].drop_first()));
        assert(product(seq![2nat, 3nat, 3nat]) == 18nat);
        assert(seq![2nat, 2nat, 3nat, 3nat].len() == 4 && seq![2nat, 2nat, 3nat, 3nat][0] == 2nat);
        assert(seq![2nat, 2nat, 3nat, 3nat].drop_first() =~= seq![2nat, 3nat, 3nat]);
        assert(product(seq![2nat, 2nat, 3nat, 3nat].drop_first()) == 18nat);
        assert(product(seq![2nat, 2nat, 3nat, 3nat]) == seq![2nat, 2nat, 3nat, 3nat][0] * product(seq![2nat, 2nat, 3nat, 3nat].drop_first()));
        assert(product(seq![2nat, 2nat, 3nat, 3nat]) == 36nat);
    }
    assert forall|i: int| 0 <= i < fs.len() implies mod_pow(2, ((36nat) / fs[i]) as nat, 37) != 1 && is_prime(#[trigger] fs[i]) by {
        if i == 0 {
            assert(fs[i] == 2);
            lemma_fundamental_div_mod_converse(36int, 2int, 18int, 0int);
        } else if i == 1 {
            assert(fs[i] == 2);
            lemma_fundamental_div_mod_converse(36int, 2int, 18int, 0int);
        } else if i == 2 {
            assert(fs[i] == 3);
            lemma_fundamental_div_mod_converse(36int, 3int, 12int, 0int);
        } else if i == 3 {
            assert(fs[i] == 3);
            lemma_fundamental_div_mod_converse(36int, 3int, 12int, 0int);
        }
    }
}

/// 37 is prime.
pub proof fn lemma_prime_37()
    ensures
        is_prime(37),
{
    lemma_witness_37();
    lemma_pratt_prime(37, 2, seq![2nat, 2nat, 3nat, 3nat]);
}

pub proof fn lemma_pow_41_full()
    ensures
        mod_pow(6, 40, 41) == 1,
{
    let m = 41int;
    lemma_fundamental_div_mod_converse(1, m, 0, 1);
    assert(mod_pow(6, 0, 41) == 1);
    lemma_fundamental_div_mod_converse(1int * 1int, m, 0int, 1int);
    lemma_fundamental_div_mod_converse(1int * 6, m, 0int, 6int);
    assert(mod_pow(6, 1, 41) == 6);
    lemma_fundamental_div_mod_converse(6int * 6int, m, 0int, 36int);
    assert(mod_pow(6, 2, 41) == 36);
    lemma_fundamental_div_mod_converse(36int * 36int, m, 31int, 25int);
    lemma_fundamental_div_mod_converse(25int * 6, m, 3int, 27int);
    assert(mod_pow(6, 5, 41) == 27);
    lemma_fundamental_div_mod_converse(27int * 27int, m, 17int, 32int);
    assert(mod_pow(6, 10, 41) == 32);
    lemma_fundamental_div_mod_converse(32int * 32int, m, 24int, 40int);
    assert(mod_pow(6, 20, 41) == 40);
    lemma_fundamental_div_mod_converse(40int * 40int, m, 39int, 1int);
    assert(mod_pow(6, 40, 41) == 1);
}

pub proof fn lemma_pow_41_by_2()
    ensures
        mod_pow(6, 20, 41) == 40,
{
    let m = 41int;
    lemma_fundamental_div_mod_converse(1, m, 0, 1);
    assert(mod_pow(6, 0, 41) == 1);
    lemma_fundamental_div_mod_converse(1int * 1int, m, 0int, 1int);
    lemma_fundamental_div_mod_converse(1int * 6, m, 0int, 6int);
    assert(mod_pow(6, 1, 41) == 6);
    lemma_fundamental_div_mod_converse(6int * 6int, m, 0int, 36int);
    assert(mod_pow(6, 2, 41) == 36);
    lemma_fundamental_div_mod_converse(36int * 36int, m, 31int, 25int);
    lemma_fundamental_div_mod_converse(25int * 6, m, 3int, 27int);
    assert(mod_pow(6, 5, 41) == 27);
    lemma_fundamental_div_mod_converse(27int * 27int, m, 17int, 32int);
    assert(mod_pow(6, 10, 41) == 32);
    lemma_fundamental_div_mod_converse(32int * 32int, m, 24int, 40int);
    assert(mod_pow(6, 20, 41) == 40);
}

pub proof fn lemma_pow_41_by_5()
    ensures
        mod_pow(6, 8, 41) == 10,
{
    let m = 41int;
    lemma_fundamental_div_mod_converse(1, m, 0, 1);
    assert(mod_pow(6, 0, 41) == 1);
    lemma_fundamental_div_mod_converse(1int * 1int, m, 0int, 1int);
    lemma_fundamental_div_mod_converse(1int * 6, m, 0int, 6int);
    assert(mod_pow(6, 1, 41) == 6);
    lemma_fundamental_div_mod_converse(6int * 6int, m, 0int, 36int);
    assert(mod_pow(6, 2, 41) == 36);
    lemma_fundamental_div_mod_converse(36int * 36int, m, 31int, 25int);
    assert(mod_pow(6, 4, 41) == 25);
    lemma_fundamental_div_mod_converse(25int * 25int, m, 15int, 10int);
    assert(mod_pow(6, 8, 41) == 10);
}

/// A Lucas–Pratt witness for 41: generator 6, and n - 1 = 2^3 * 5.
pub proof fn lemma_witness_41()
    ensures
        pratt_witness(41, 6, seq![2nat, 2nat, 2nat, 5nat]),
{
    lemma_prime_5();
    lemma_pow_41_full();
    lemma_pow_41_by_2();
    lemma_pow_41_by_5();
    let fs = seq![2nat, 2nat, 2nat, 5nat];
    assert(product(fs) == 40nat) by {
        assert(product(Seq::<nat>::empty()) == 1);
        assert(seq![5nat].len() == 1 && seq![5nat][0] == 5nat);
        assert(seq![5nat].drop_first() =~= Seq::<nat>::empty());
        assert(product(seq![5nat].drop_first()) == 1nat);
        assert(product(seq![5nat]) == seq![5nat][0] * product(seq![5nat].drop_first()));
        assert(product(seq![5nat]) == 5nat);
        assert(seq![2nat, 5nat].len() == 2 && seq![2nat, 5nat][0] == 2nat);
        assert(seq![2nat, 5nat].drop_first() =~= seq![5nat]);
        assert(product(seq![2nat, 5nat].drop_first()) == 5nat);
        assert(product(seq![2nat, 5nat]) == seq![2nat, 5nat][0] * product(seq![2nat, 5nat].drop_first()));
        assert(product(seq![2nat, 5nat]) == 10nat);
        assert(seq![2nat, 2nat, 5nat].len() == 3 && seq![2nat, 2nat, 5nat][0] == 2nat);
        assert(seq![2nat, 2nat, 5nat].drop_first() =~= seq![2nat, 5nat]);
        assert(product(seq![2nat, 2nat, 5nat].drop_first()) == 10nat);
        assert(product(seq![2nat, 2nat, 5nat]) == seq![2nat, 2nat, 5nat][0] * product(seq![2nat, 2nat, 5nat].drop_first()));
        assert(product(seq![2nat, 2nat, 5nat]) == 20nat);
        assert(seq![2nat, 2nat, 2nat, 5nat].len() == 4 && seq![2nat, 2nat, 2nat, 5nat][0] == 2nat);
        assert(seq![2nat, 2nat, 2nat, 5nat].drop_first() =~= seq![2nat, 2nat, 5nat]);
        assert(product(seq![2nat, 2nat, 2nat, 5nat].drop_first()) == 20nat);
        assert(product(seq![2nat, 2nat, 2nat, 5nat]) == seq![2nat, 2nat, 2nat, 5nat][0] * product(seq![2nat, 2nat, 2nat, 5nat].drop_first()));
        assert(product(seq![2nat, 2nat, 2nat, 5nat]) == 40nat);
    }
    assert forall|i: int| 0 <= i < fs.len() implies mod_pow(6, ((40nat) / fs[i]) as nat, 41) != 1 && is_prime(#[trigger] fs[i]) by {
        if i == 0 {
            assert(fs[i] == 2);
            lemma_fundamental_div_mod_converse(40int, 2int, 20int, 0int);
        } else if i == 1 {
            assert(fs[i] == 2);
            lemma_fundamental_div_mod_converse(40int, 2int, 20int, 0int);
        } else if i == 2 {
            assert(fs[i] == 2);
            lemma_fundamental_div_mod_converse(40int, 2int, 20int, 0int);
        } else if i == 3 {
            assert(fs[i] == 5);
            lemma_fundamental_div_mod_converse(40int, 5int, 8int, 0int);
        }
    }
}

/// 41 is prime.
pub proof fn lemma_prime_41()
    ensures
        is_prime(41),
{
    lemma_witness_41();
    lemma_pratt_prime(41, 6, seq![2nat, 2nat, 2nat, 5nat]);
}

pub proof fn lemma_pow_67_full()
    ensures
        mod_pow(2, 66, 67) == 1,
{
    let m = 67int;
    lemma_fundamental_div_mod_converse(1, m, 0, 1);
    assert(mod_pow(2, 0, 67) == 1);
    lemma_fundamental_div_mod_converse(1int * 1int, m, 0int, 1int);
    lemma_fundamental_div_mod_converse(1int * 2, m, 0int, 2int);
    assert(mod_pow(2, 1, 67) == 2);
    lemma_fundamental_div_mod_converse(2int * 2int, m, 0int, 4int);
    assert(mod_pow(2, 2, 67) == 4);
    lemma_fundamental_div_mod_converse(4int * 4int, m, 0int, 16int);
    assert(mod_pow(2, 4, 67) == 16);
    lemma_fundamental_div_mod_converse(16int * 16int, m, 3int, 55int);
    assert(mod_pow(2, 8, 67) == 55);
    lemma_fundamental_div_mod_converse(55int * 55int, m, 45int, 10int);
    assert(mod_pow(2, 16, 67) == 10);
    lemma_fundamental_div_mod_converse(10int * 10int, m, 1int, 33int);
    lemma_fundamental_div_mod_converse(33int * 2, m, 0int, 66int);
    assert(mod_pow(2, 33, 67) == 66);
    lemma_fundamental_div_mod_converse(66int * 66int, m, 65int, 1int);
    assert(mod_pow(2, 66, 67) == 1);
}

pub proof fn lemma_pow_67_by_2()
    ensures
        mod_pow(2, 33, 67) == 66,
{
    let m = 67int;
    lemma_fundamental_div_mod_converse(1, m, 0, 1);
    assert(mod_pow(2, 0, 67) == 1);
    lemma_fundamental_div_mod_converse(1int * 1int, m, 0int, 1int);
    lemma_fundamental_div_mod_converse(1int * 2, m, 0int, 2int);
    assert(mod_pow(2, 1, 67) == 2);
    lemma_fundamental_div_mod_converse(2int * 2int, m, 0int, 4int);
    assert(mod_pow(2, 2, 67) == 4);
    lemma_fundamental_div_mod_converse(4int * 4int, m, 0int, 16int);
    assert(mod_pow(2, 4, 67) == 16);
    lemma_fundamental_div_mod_converse(16int * 16int, m, 3int, 55int);
    assert(mod_pow(2, 8, 67) == 55);
    lemma_fundamental_div_mod_converse(55int * 55int, m, 45int, 10int);
    assert(mod_pow(2, 16, 67) == 10);
    lemma_fundamental_div_mod_converse(10int * 10int, m, 1int, 33int);
    lemma_fundamental_div_mod_converse(33int * 2, m, 0int, 66int);
    assert(mod_pow(2, 33, 67) == 66);
}

pub proof fn lemma_pow_67_by_3()
    ensures
        mod_pow(2, 22, 67) == 37,
{
    let m = 67int;
    lemma_fundamental_div_mod_converse(1, m, 0, 1);
    assert(mod_pow(2, 0, 67) == 1);
    lemma_fundamental_div_mod_converse(1int * 1int, m, 0int, 1int);
    lemma_fundamental_div_mod_converse(1int * 2, m, 0int, 2int);
    assert(mod_pow(2, 1, 67) == 2);
    lemma_fundamental_div_mod_converse(2int * 2int, m, 0int, 4int);
    assert(mod_pow(2, 2, 67) == 4);
    lemma_fundamental_div_mod_converse(4int * 4int, m, 0int, 16int);
    lemma_fundamental_div_mod_converse(16int * 2, m, 0int, 32int);
    assert(mod_pow(2, 5, 67) == 32);
    lemma_fundamental_div_mod_converse(32int * 32int, m, 15int, 19int);
    lemma_fundamental_div_mod_converse(19int * 2, m, 0int, 38int);
    assert(mod_pow(2, 11, 67) == 38);
    lemma_fundamental_div_mod_converse(38int * 38int, m, 21int, 37int);
    assert(mod_pow(2, 22, 67) == 37);
}

pub proof fn lemma_pow_67_by_11()
    ensures
        mod_pow(2, 6, 67) == 64,
{
    let m = 67int;
    lemma_fundamental_div_mod_converse(1, m, 0, 1);
    assert(mod_pow(2, 0, 67) == 1);
    lemma_fundamental_div_mod_converse(1int * 1int, m, 0int, 1int);
    lemma_fundamental_div_mod_converse(1int * 2, m, 0int, 2int);
    assert(mod_pow(2, 1, 67) == 2);
    lemma_fundamental_div_mod_converse(2int * 2int, m, 0int, 4int);
    lemma_fundamental_div_mod_converse(4int * 2, m, 0int, 8int);
    assert(mod_pow(2, 3, 67) == 8);
    lemma_fundamental_div_mod_converse(8int * 8int, m, 0int, 64int);
    assert(mod_pow(2, 6, 67) == 64);
}

/// A Lucas–Pratt witness for 67: generator 2, and n - 1 = 2 * 3 * 11.
pub proof fn lemma_witness_67()
    ensures
        pratt_witness(67, 2, seq![2nat, 3nat, 11nat]),
{
    lemma_prime_3();
    lemma_prime_11();
    lemma_pow_67_full();
    lemma_pow_67_by_2();
    lemma_pow_67_by_3();
    lemma_pow_67_by_11();
    let fs = seq![2nat, 3nat, 11nat];
    assert(product(fs) == 66nat) by {
        assert(product(Seq::<nat>::empty()) == 1);
        assert(seq![11nat].len() == 1 && seq![11nat][0] == 11nat);
        assert(seq![11nat].drop_first() =~= Seq::<nat>::empty());
        assert(product(seq![11nat].drop_first()) == 1nat);
        assert(product(seq![11nat]) == seq![11nat][0] * product(seq![11nat].drop_first()));
        assert(product(seq![11nat]) == 11nat);
        assert(seq![3nat, 11nat].len() == 2 && seq![3nat, 11nat][0] == 3nat);
        assert(seq![3nat, 11nat].drop_first() =~= seq![11nat]);
        assert(product(seq![3nat, 11nat].drop_first()) == 11nat);
        assert(product(seq![3nat, 11nat]) == seq![3nat, 11nat][0] * product(seq![3nat, 11nat].drop_first()));
        assert(product(seq![3nat, 11nat]) == 33nat);
        assert(seq![2nat, 3nat, 11nat].len() == 3 && seq![2nat, 3nat, 11nat][0] == 2nat);
        assert(seq![2nat, 3nat, 11nat].drop_first() =~= seq![3nat, 11nat]);
        assert(product(seq![2nat, 3nat, 11nat].drop_first()) == 33nat);
        assert(product(seq![2nat, 3nat, 11nat]) == seq![2nat, 3nat, 11nat][0] * product(seq![2nat, 3nat, 11nat].drop_first()));
        assert(product(seq![2nat, 3nat, 11nat]) == 66nat);
    }
    assert forall|i: int| 0 <= i < fs.len() implies mod_pow(2, ((66nat) / fs[i]) as nat, 67) != 1 && is_prime(#[trigger] fs[i]) by {
        if i == 0 {
            assert(fs[i] == 2);
            lemma_fundamental_div_mod_converse(66int, 2int, 33int, 0int);
        } else if i == 1 {
            assert(fs[i] == 3);
            lemma_fundamental_div_mod_converse(66int, 3int, 22int, 0int);
        } else if i == 2 {
            assert(fs[i] == 11);
            lemma_fundamental_div_mod_converse(66int, 11int, 6int, 0int);
        }
    }
}

/// 67 is prime.
pub proof fn lemma_prime_67()
    ensures
        is_prime(67),
{
    lemma_witness_67();
    lemma_pratt_prime(67, 2, seq![2nat, 3nat, 11nat]);
}

pub proof fn lemma_pow_73_full()
    ensures
        mod_pow(5, 72, 73) == 1,
{
    let m = 73int;
    lemma_fundamental_div_mod_converse(1, m, 0, 1);
    assert(mod_pow(5, 0, 73) == 1);
    lemma_fundamental_div_mod_converse(1int * 1int, m, 0int, 1int);
    lemma_fundamental_div_mod_converse(1int * 5, m, 0int, 5int);
    assert(mod_pow(5, 1, 73) == 5);
    lemma_fundamental_div_mod_converse(5int * 5int, m, 0int, 25int);
    assert(mod_pow(5, 2, 73) == 25);
    lemma_fundamental_div_mod_converse(25int * 25int, m, 8int, 41int);
    assert(mod_pow(5, 4, 73) == 41);
    lemma_fundamental_div_mod_converse(41int * 41int, m, 23int, 2int);
    lemma_fundamental_div_mod_converse(2int * 5, m, 0int, 10int);
    assert(mod_pow(5, 9, 73) == 10);
    lemma_fundamental_div_mod_converse(10int * 10int, m, 1int, 27int);
    assert(mod_pow(5, 18, 73) == 27);
    lemma_fundamental_div_mod_converse(27int * 27int, m, 9int, 72int);
    assert(mod_pow(5, 36, 73) == 72);
    lemma_fundamental_div_mod_converse(72int * 72int, m, 71int, 1int);
    assert(mod_pow(5, 72, 73) == 1);
}

pub proof fn lemma_pow_73_by_2()
    ensures
        mod_pow(5, 36, 73) == 72,
{
    let m = 73int;
    lemma_fundamental_div_mod_converse(1, m, 0, 1);
    assert(mod_pow(5, 0, 73) == 1);
    lemma_fundamental_div_mod_converse(1int * 1int, m, 0int, 1int);
    lemma_fundamental_div_mod_converse(1int * 5, m, 0int, 5int);
    assert(mod_pow(5, 1, 73) == 5);
    lemma_fundamental_div_mod_converse(5int * 5int, m, 0int, 25int);
    assert(mod_pow(5, 2, 73) == 25);
    lemma_fundamental_div_mod_converse(25int * 25int, m, 8int, 41int);
    assert(mod_pow(5, 4, 73) == 41);
    lemma_fundamental_div_mod_converse(41int * 41int, m, 23int, 2int);
    lemma_fundamental_div_mod_converse(2int * 5, m, 0int, 10int);
    assert(mod_pow(5, 9, 73) == 10);
    lemma_fundamental_div_mod_converse(10int * 10int, m, 1int, 27int);
    assert(mod_pow(5, 18, 73) == 27);
    lemma_fundamental_div_mod_converse(27int * 27int, m, 9int, 72int);
    assert(mod_pow(5, 36, 73) == 72);
}

pub proof fn lemma_pow_73_by_3()
    ensures
        mod_pow(5, 24, 73) == 8,
{
    let m = 73int;
    lemma_fundamental_div_mod_converse(1, m, 0, 1);
    assert(mod_pow(5, 0, 73) == 1);
    lemma_fundamental_div_mod_converse(1int * 1int, m, 0int, 1int);
    lemma_fundamental_div_mod_converse(1int * 5, m, 0int, 5int);
    assert(mod_pow(5, 1, 73) == 5);
    lemma_fundamental_div_mod_converse(5int * 5int, m, 0int, 25int);
    lemma_fundamental_div_mod_converse(25int * 5, m, 1int, 52int);
    assert(mod_pow(5, 3, 73) == 52);
    lemma_fundamental_div_mod_converse(52int * 52int, m, 37int, 3int);
    assert(mod_pow(5, 6, 73) == 3);
    lemma_fundamental_div_mod_converse(3int * 3int, m, 0int, 9int);
    assert(mod_pow(5, 12, 73) == 9);
    lemma_fundamental_div_mod_converse(9int * 9int, m, 1int, 8int);
    assert(mod_pow(5, 24, 73) == 8);
}

/// A Lucas–Pratt witness for 73: generator 5, and n - 1 = 2^3 * 3^2.
pub proof fn lemma_witness_73()
    ensures
        pratt_witness(73, 5, seq![2nat, 2nat, 2nat, 3nat, 3nat]),
{
    lemma_prime_3();
    lemma_pow_73_full();
    lemma_pow_73_by_2();
    lemma_pow_73_by_3();
    let fs = seq![2nat, 2nat, 2nat, 3nat, 3nat];
    assert(product(fs) == 72nat) by {
        assert(product(Seq::<nat>::empty()) == 1);
        assert(seq![3nat].len() == 1 && seq![3nat][0] == 3nat);
        assert(seq![3nat].drop_first() =~= Seq::<nat>::empty());
        assert(product(seq![3nat].drop_first()) == 1nat);
        assert(product(seq![3nat]) == seq![3nat][0] * product(seq![3nat].drop_first()));
        assert(product(seq![3nat]) == 3nat);
        assert(seq![3nat, 3nat].len() == 2 && seq![3nat, 3nat][0] == 3nat);
        assert(seq![3nat, 3nat].drop_first() =~= seq![3nat]);
        assert(product(seq![3nat, 3nat].drop_first()) == 3nat);
        assert(product(seq![3nat, 3nat]) == seq![3nat, 3nat][0] * product(seq![3nat, 3nat].drop_first()));
        assert(product(seq![3nat, 3nat]) == 9nat);
        assert(seq![2nat, 3nat, 3nat].len() == 3 && seq![2nat, 3nat, 3nat][0] == 2nat);
        assert(seq![2nat, 3nat, 3nat].drop_first() =~= seq![3nat, 3nat]);
        assert(product(seq![2nat, 3nat, 3nat].drop_first()) == 9nat);
        assert(product(seq![2nat, 3nat, 3nat]) == seq![2nat, 3nat, 3nat][0] * product(seq![2nat, 3nat, 3nat].drop_first()));
        assert(product(seq![2nat, 3nat, 3nat]) == 18nat);
        assert(seq![2nat, 2nat, 3nat, 3nat].len() == 4 && seq![2nat, 2nat, 3nat, 3nat][0] == 2nat);
        assert(seq![2nat, 2nat, 3nat, 3nat].drop_first() =~= seq![2nat, 3nat, 3nat]);
        assert(product(seq![2nat, 2nat, 3nat, 3nat].drop_first()) == 18nat);
        assert(product(seq![2nat, 2nat, 3nat, 3nat]) == seq![2nat, 2nat, 3nat, 3nat][0] * product(seq![2nat, 2nat, 3nat, 3nat].drop_first()));
        assert(product(seq![2nat, 2nat, 3nat, 3nat]) == 36nat);
        assert(seq![2nat, 2nat, 2nat, 3nat, 3nat].len() == 5 && seq![2nat, 2nat, 2nat, 3nat, 3nat][0] == 2nat);
        assert(seq![2nat, 2nat, 2nat, 3nat, 3nat].drop_first() =~= seq![2nat, 2nat, 3nat, 3nat]);
        assert(product(seq![2nat, 2nat, 2nat, 3nat, 3nat].drop_first()) == 36nat);
        assert(product(seq![2nat, 2nat, 2nat, 3nat, 3nat]) == seq![2nat, 2nat, 2nat, 3nat, 3nat][0] * product(seq![2nat, 2nat, 2nat, 3nat, 3nat].drop_first()));
        assert(product(seq![2nat, 2nat, 2nat, 3nat, 3nat]) == 72nat);
    }
    assert forall|i: int| 0 <= i < fs.len() implies mod_pow(5, ((72nat) / fs[i]) as nat, 73) != 1 && is_prime(#[trigger] fs[i]) by {
        if i == 0 {
            assert(fs[i] == 2);
            lemma_fundamental_div_mod_converse(72int, 2int, 36int, 0int);
        } else if i == 1 {
            assert(fs[i] == 2);
            lemma_fundamental_div_mod_converse(72int, 2int, 36int, 0int);
        } else if i == 2 {
            assert(fs[i] == 2);
            lemma_fundamental_div_mod_converse(72int, 2int, 36int, 0int);
        } else if i == 3 {
            assert(fs[i] == 3);
            lemma_fundamental_div_mod_converse(72int, 3int, 24int, 0int);
        } else if i == 4 {
            assert(fs[i] == 3);
            lemma_fundamental_div_mod_converse(72int, 3int, 24int, 0int);
        }
    }
}

/// 73 is prime.
pub proof fn lemma_prime_73()
    ensures
        is_prime(73),
{
    lemma_witness_73();
    lemma_pratt_prime(73, 5, seq![2nat, 2nat, 2nat, 3nat, 3nat]);
}

pub proof fn lemma_pow_89_full()
    ensures
        mod_pow(3, 88, 89) == 1,
{
    let m = 89int;
    lemma_fundamental_div_mod_converse(1, m, 0, 1);
    assert(mod_pow(3, 0, 89) == 1);
    lemma_fundamental_div_mod_converse(1int * 1int, m, 0int, 1int);
    lemma_fundamental_div_mod_converse(1int * 3, m, 0int, 3int);
    assert(mod_pow(3, 1, 89) == 3);
    lemma_fundamental_div_mod_converse(3int * 3int, m, 0int, 9int);
    assert(mod_pow(3, 2, 89) == 9);
    lemma_fundamental_div_mod_converse(9int * 9int, m, 0int, 81int);
    lemma_fundamental_div_mod_converse(81int * 3, m, 2int, 65int);
    assert(mod_pow(3, 5, 89) == 65);
    lemma_fundamental_div_mod_converse(65int * 65int, m, 47int, 42int);
    lemma_fundamental_div_mod_converse(42int * 3, m, 1int, 37int);
    assert(mod_pow(3, 11, 89) == 37);
    lemma_fundamental_div_mod_converse(37int * 37int, m, 15int, 34int);
    assert(mod_pow(3, 22, 89) == 34);
    lemma_fundamental_div_mod_converse(34int * 34int, m, 12int, 88int);
    assert(mod_pow(3, 44, 89) == 88);
    lemma_fundamental_div_mod_converse(88int * 88int, m, 87int, 1int);
    assert(mod_pow(3, 88, 89) == 1);
}

pub proof fn lemma_pow_89_by_2()
    ensures
        mod_pow(3, 44, 89) == 88,
{
    let m = 89int;
    lemma_fundamental_div_mod_converse(1, m, 0, 1);
    assert(mod_pow(3, 0, 89) == 1);
    lemma_fundamental_div_mod_converse(1int * 1int, m, 0int, 1int);
    lemma_fundamental_div_mod_converse(1int * 3, m, 0int, 3int);
    assert(mod_pow(3, 1, 89) == 3);
    lemma_fundamental_div_mod_converse(3int * 3int, m, 0int, 9int);
    assert(mod_pow(3, 2, 89) == 9);
    lemma_fundamental_div_mod_converse(9int * 9int, m, 0int, 81int);
    lemma_fundamental_div_mod_converse(81int * 3, m, 2int, 65int);
    assert(mod_pow(3, 5, 89) == 65);
    lemma_fundamental_div_mod_converse(65int * 65int, m, 47int, 42int);
    lemma_fundamental_div_mod_converse(42int * 3, m, 1int, 37int);
    assert(mod_pow(3, 11, 89) == 37);
    lemma_fundamental_div_mod_converse(37int * 37int, m, 15int, 34int);
    assert(mod_pow(3, 22, 89) == 34);
    lemma_fundamental_div_mod_converse(34int * 34int, m, 12int, 88int);
    assert(mod_pow(3, 44, 89) == 88);
}

pub proof fn lemma_pow_89_by_11()
    ensures
        mod_pow(3, 8, 89) == 64,
{
    let m = 89int;
    lemma_fundamental_div_mod_converse(1, m, 0, 1);
    assert(mod_pow(3, 0, 89) == 1);
    lemma_fundamental_div_mod_converse(1int * 1int, m, 0int, 1int);
    lemma_fundamental_div_mod_converse(1int * 3, m, 0int, 3int);
    assert(mod_pow(3, 1, 89) == 3);
    lemma_fundamental_div_mod_converse(3int * 3int, m, 0int, 9int);
    assert(mod_pow(3, 2, 89) == 9);
    lemma_fundamental_div_mod_converse(9int * 9int, m, 0int, 81int);
    assert(mod_pow(3, 4, 89) == 81);
    lemma_fundamental_div_mod_converse(81int * 81int, m, 73int, 64int);
    assert(mod_pow(3, 8, 89) == 64);
}

/// A Lucas–Pratt witness for 89: generator 3, and n - 1 = 2^3 * 11.
pub proof fn lemma_witness_89()
    ensures
        pratt_witness(89, 3, seq![2nat, 2nat, 2nat, 11nat]),
{
    lemma_prime_11();
    lemma_pow_89_full();
    lemma_pow_89_by_2();
    lemma_pow_89_by_11();
    let fs = seq![2nat, 2nat, 2nat, 11nat];
    assert(product(fs) == 88nat) by {
        assert(product(Seq::<nat>::empty()) == 1);
        assert(seq![11nat].len() == 1 && seq![11nat][0] == 11nat);
        assert(seq![11nat].drop_first() =~= Seq::<nat>::empty());
        assert(product(seq![11nat].drop_first()) == 1nat);
        assert(product(seq![11nat]) == seq![11nat][0] * product(seq![11nat].drop_first()));
        assert(product(seq![11nat]) == 11nat);
        assert(seq![2nat, 11nat].len() == 2 && seq![2nat, 11nat][0] == 2nat);
        assert(seq![2nat, 11nat].drop_first() =~= seq![11nat]);
        assert(product(seq![2nat, 11nat].drop_first()) == 11nat);
        assert(product(seq![2nat, 11nat]) == seq![2nat, 11nat][0] * product(seq![2nat, 11nat].drop_first()));
        assert(product(seq![2nat, 11nat]) == 22nat);
        assert(seq![2nat, 2nat, 11nat].len() == 3 && seq![2nat, 2nat, 11nat][0] == 2nat);
        assert(seq![2nat, 2nat, 11nat].drop_first() =~= seq![2nat, 11nat]);
        assert(product(seq![2nat, 2nat, 11nat].drop_first()) == 22nat);
        assert(product(seq![2nat, 2nat, 11nat]) == seq![2nat, 2nat, 11nat][0] * product(seq![2nat, 2nat, 11nat].drop_first()));
        assert(product(seq![2nat, 2nat, 11nat]) == 44nat);
        assert(seq![2nat, 2nat, 2nat, 11nat].len() == 4 && seq![2nat, 2nat, 2nat, 11nat][0] == 2nat);
        assert(seq![2nat, 2nat, 2nat, 11nat].drop_first() =~= seq![2nat, 2nat, 11nat]);
        assert(product(seq![2nat, 2nat, 2nat, 11nat].drop_first()) == 44nat);
        assert(product(seq![2nat, 2nat, 2nat, 11nat]) == seq![2nat, 2nat, 2nat, 11nat][0] * product(seq![2nat, 2nat, 2nat, 11nat].drop_first()));
        assert(product(seq![2nat, 2nat, 2nat, 11nat]) == 88nat);
    }
    assert forall|i: int| 0 <= i < fs.len() implies mod_pow(3, ((88nat) / fs[i]) as nat, 89) != 1 && is_prime(#[trigger] fs[i]) by {
        if i == 0 {
            assert(fs[i] == 2);
            lemma_fundamental_div_mod_converse(88int, 2int, 44int, 0int);
        } else if i == 1 {
            assert(fs[i] == 2);
            lemma_fundamental_div_mod_converse(88int, 2int, 44int, 0int);
        } else if i == 2 {
            assert(fs[i] == 2);
            lemma_fundamental_div_mod_converse(88int, 2int, 44int, 0int);
        } else if i == 3 {
            assert(fs[i] == 11);
            lemma_fundamental_div_mod_converse(88int, 11int, 8int, 0int);
        }
    }
}

/// 89 is prime.
pub proof fn lemma_prime_89()
    ensures
        is_prime(89),
{
    lemma_witness_89();
    lemma_pratt_prime(89, 3, seq![2nat, 2nat, 2nat, 11nat]);
}

pub proof fn lemma_pow_109_full()
    ensures
        mod_pow(6, 108, 109) == 1,
{
    let m = 109int;
    lemma_fundamental_div_mod_converse(1, m, 0, 1);
    assert(mod_pow(6, 0, 109) == 1);
    lemma_fundamental_div_mod_converse(1int * 1int, m, 0int, 1int);
    lemma_fundamental_div_mod_converse(1int * 6, m, 0int, 6int);
    assert(mod_pow(6, 1, 109) == 6);
    lemma_fundamental_div_mod_converse(6int * 6int, m, 0int, 36int);
    lemma_fundamental_div_mod_converse(36int * 6, m, 1int, 107int);
    assert(mod_pow(6, 3, 109) == 107);
    lemma_fundamental_div_mod_converse(107int * 107int, m, 105int, 4int);
    assert(mod_pow(6, 6, 109) == 4);
    lemma_fundamental_div_mod_converse(4int * 4int, m, 0int, 16int);
    lemma_fundamental_div_mod_converse(16int * 6, m, 0int, 96int);
    assert(mod_pow(6, 13, 109) == 96);
    lemma_fundamental_div_mod_converse(96int * 96int, m, 84int, 60int);
    lemma_fundamental_div_mod_converse(60int * 6, m, 3int, 33int);
    assert(mod_pow(6, 27, 109) == 33);
    lemma_fundamental_div_mod_converse(33int * 33int, m, 9int, 108int);
    assert(mod_pow(6, 54, 109) == 108);
    lemma_fundamental_div_mod_converse(108int * 108int, m, 107int, 1int);
    assert(mod_pow(6, 108, 109) == 1);
}

pub proof fn lemma_pow_109_by_2()
    ensures
        mod_pow(6, 54, 109) == 108,
{
    let m = 109int;
    lemma_fundamental_div_mod_converse(1, m, 0, 1);
    assert(mod_pow(6, 0, 109) == 1);
    lemma_fundamental_div_mod_converse(1int * 1int, m, 0int, 1int);
    lemma_fundamental_div_mod_converse(1int * 6, m, 0int, 6int);
    assert(mod_pow(6, 1, 109) == 6);
    lemma_fundamental_div_mod_converse(6int * 6int, m, 0int, 36int);
    lemma_fundamental_div_mod_converse(36int * 6, m, 1int, 107int);
    assert(mod_pow(6, 3, 109) == 107);
    lemma_fundamental_div_mod_converse(107int * 107int, m, 105int, 4int);
    assert(mod_pow(6, 6, 109) == 4);
    lemma_fundamental_div_mod_converse(4int * 4int, m, 0int, 16int);
    lemma_fundamental_div_mod_converse(16int * 6, m, 0int, 96int);
    assert(mod_pow(6, 13, 109) == 96);
    lemma_fundamental_div_mod_converse(96int * 96int, m, 84int, 60int);
    lemma_fundamental_div_mod_converse(60int * 6, m, 3int, 33int);
    assert(mod_pow(6, 27, 109) == 33);
    lemma_fundamental_div_mod_converse(33int * 33int, m, 9int, 108int);
    assert(mod_pow(6, 54, 109) == 108);
}

pub proof fn lemma_pow_109_by_3()
    ensures
        mod_pow(6, 36, 109) == 63,
{
    let m = 109int;
    lemma_fundamental_div_mod_converse(1, m, 0, 1);
    assert(mod_pow(6, 0, 109) == 1);
    lemma_fundamental_div_mod_converse(1int * 1int, m, 0int, 1int);
    lemma_fundamental_div_mod_converse(1int * 6, m, 0int, 6int);
    assert(mod_pow(6, 1, 109) == 6);
    lemma_fundamental_div_mod_converse(6int * 6int, m, 0int, 36int);
    assert(mod_pow(6, 2, 109) == 36);
    lemma_fundamental_div_mod_converse(36int * 36int, m, 11int, 97int);
    assert(mod_pow(6, 4, 109) == 97);
    lemma_fundamental_div_mod_converse(97int * 97int, m, 86int, 35int);
    lemma_fundamental_div_mod_converse(35int * 6, m, 1int, 101int);
    assert(mod_pow(6, 9, 109) == 101);
    lemma_fundamental_div_mod_converse(101int * 101int, m, 93int, 64int);
    assert(mod_pow(6, 18, 109) == 64);
    lemma_fundamental_div_mod_converse(64int * 64int, m, 37int, 63int);
    assert(mod_pow(6, 36, 109) == 63);
}

/// A Lucas–Pratt witness for 109: generator 6, and n - 1 = 2^2 * 3^3.
pub proof fn lemma_witness_109()
    ensures
        pratt_witness(109, 6, seq![2nat, 2nat, 3nat, 3nat, 3nat]),
{
    lemma_prime_3();
    lemma_pow_109_full();
    lemma_pow_109_by_2();
    lemma_pow_109_by_3();
    let fs = seq![2nat, 2nat, 3nat, 3nat, 3nat];
    assert(product(fs) == 108nat) by {
        assert(product(Seq::<nat>::empty()) == 1);
        assert(seq![3nat].len() == 1 && seq![3nat][0] == 3nat);
        assert(seq![3nat].drop_first() =~= Seq::<nat>::empty());
        assert(product(seq![3nat].drop_first()) == 1nat);
        assert(product(seq![3nat]) == seq![3nat][0] * product(seq![3nat].drop_first()));
        assert(product(seq![3nat]) == 3nat);
        assert(seq![3nat, 3nat].len() == 2 && seq![3nat, 3nat][0] == 3nat);
        assert(seq![3nat, 3nat].drop_first() =~= seq![3nat]);
        assert(product(seq![3nat, 3nat].drop_first()) == 3nat);
        assert(product(seq![3nat, 3nat]) == seq![3nat, 3nat][0] * product(seq![3nat, 3nat].drop_first()));
        assert(product(seq![3nat, 3nat]) == 9nat);
        assert(seq![3nat, 3nat, 3nat].len() == 3 && seq![3nat, 3nat, 3nat][0] == 3nat);
        assert(seq![3nat, 3nat, 3nat].drop_first() =~= seq![3nat, 3nat]);
        assert(product(seq![3nat, 3nat, 3nat].drop_first()) == 9nat);
        assert(product(seq![3nat, 3nat, 3nat]) == seq![3nat, 3nat, 3nat][0] * product(seq![3nat, 3nat, 3nat].drop_first()));
        assert(product(seq![3nat, 3nat, 3nat]) == 27nat);
        assert(seq![2nat, 3nat, 3nat, 3nat].len() == 4 && seq![2nat, 3nat, 3nat, 3nat][0] == 2nat);
        assert(seq![2nat, 3nat, 3nat, 3nat].drop_first() =~= seq![3nat, 3nat, 3nat]);
        assert(product(seq![2nat, 3nat, 3nat, 3nat].drop_first()) == 27nat);
        assert(product(seq![2nat, 3nat, 3nat, 3nat]) == seq![2nat, 3nat, 3nat, 3nat][0] * product(seq![2nat, 3nat, 3nat, 3nat].drop_first()));
        assert(product(seq![2nat, 3nat, 3nat, 3nat]) == 54nat);
        assert(seq![2nat, 2nat, 3nat, 3nat, 3nat].len() == 5 && seq![2nat, 2nat, 3nat, 3nat, 3nat][0] == 2nat);
        assert(seq![2nat, 2nat, 3nat, 3nat, 3nat].drop_first() =~= seq![2nat, 3nat, 3nat, 3nat]);
        assert(product(seq![2nat, 2nat, 3nat, 3nat, 3nat].drop_first()) == 54nat);
        assert(product(seq![2nat, 2nat, 3nat, 3nat, 3nat]) == seq![2nat, 2nat, 3nat, 3nat, 3nat][0] * product(seq![2nat, 2nat, 3nat, 3nat, 3nat].drop_first()));
        assert(product(seq![2nat, 2nat, 3nat, 3nat, 3nat]) == 108nat);
    }
    assert forall|i: int| 0 <= i < fs.len() implies mod_pow(6, ((108nat) / fs[i]) as nat, 109) != 1 && is_prime(#[trigger] fs[i]) by {
        if i == 0 {
            assert(fs[i] == 2);
            lemma_fundamental_div_mod_converse(108int, 2int, 54int, 0int);
        } else if i == 1 {
            assert(fs[i] == 2);
            lemma_fundamental_div_mod_converse(108int, 2int, 54int, 0int);
        } else if i == 2 {
            assert(fs[i] == 3);
            lemma_fundamental_div_mod_converse(108int, 3int, 36int, 0int);
        } else if i == 3 {
            assert(fs[i] == 3);
            lemma_fundamental_div_mod_converse(108int, 3int, 36int, 0int);
        } else if i == 4 {
            assert(fs[i] == 3);
            lemma_fundamental_div_mod_converse(108int, 3int, 36int, 0int);
        }
    }
}

/// 109 is prime.
pub proof fn lemma_prime_109()
    ensures
        is_prime(109),
{
    lemma_witness_109();
    lemma_pratt_prime(109, 6, seq![2nat, 2nat, 3nat, 3nat, 3nat]);
}

pub proof fn lemma_pow_127_full()
    ensures
        mod_pow(3, 126, 127) == 1,
{
    let m = 127int;
    lemma_fundamental_div_mod_converse(1, m, 0, 1);
    assert(mod_pow(3, 0, 127) == 1);
    lemma_fundamental_div_mod_converse(1int * 1int, m, 0int, 1int);
    lemma_fundamental_div_mod_converse(1int * 3, m, 0int, 3int);
    assert(mod_pow(3, 1, 127) == 3);
    lemma_fundamental_div_mod_converse(3int * 3int, m, 0int, 9int);
    lemma_fundamental_div_mod_converse(9int * 3, m, 0int, 27int);
    assert(mod_pow(3, 3, 127) == 27);
    lemma_fundamental_div_mod_converse(27int * 27int, m, 5int, 94int);
    lemma_fundamental_div_mod_converse(94int * 3, m, 2int, 28int);
    assert(mod_pow(3, 7, 127) == 28);
    lemma_fundamental_div_mod_converse(28int * 28int, m, 6int, 22int);
    lemma_fundamental_div_mod_converse(22int * 3, m, 0int, 66int);
    assert(mod_pow(3, 15, 127) == 66);
    lemma_fundamental_div_mod_converse(66int * 66int, m, 34int, 38int);
    lemma_fundamental_div_mod_converse(38int * 3, m, 0int, 114int);
    assert(mod_pow(3, 31, 127) == 114);
    lemma_fundamental_div_mod_converse(114int * 114int, m, 102int, 42int);
    lemma_fundamental_div_mod_converse(42int * 3, m, 0int, 126int);
    assert(mod_pow(3, 63, 127) == 126);
    lemma_fundamental_div_mod_converse(126int * 126int, m, 125int, 1int);
    assert(mod_pow(3, 126, 127) == 1);
}

pub proof fn lemma_pow_127_by_2()
    ensures
        mod_pow(3, 63, 127) == 126,
{
    let m = 127int;
    lemma_fundamental_div_mod_converse(1, m, 0, 1);
    assert(mod_pow(3, 0, 127) == 1);
    lemma_fundamental_div_mod_converse(1int * 1int, m, 0int, 1int);
    lemma_fundamental_div_mod_converse(1int * 3, m, 0int, 3int);
    assert(mod_pow(3, 1, 127) == 3);
    lemma_fundamental_div_mod_converse(3int * 3int, m, 0int, 9int);
    lemma_fundamental_div_mod_converse(9int * 3, m, 0int, 27int);
    assert(mod_pow(3, 3, 127) == 27);
    lemma_fundamental_div_mod_converse(27int * 27int, m, 5int, 94int);
    lemma_fundamental_div_mod_converse(94int * 3, m, 2int, 28int);
    assert(mod_pow(3, 7, 127) == 28);
    lemma_fundamental_div_mod_converse(28int * 28int, m, 6int, 22int);
    lemma_fundamental_div_mod_converse(22int * 3, m, 0int, 66int);
    assert(mod_pow(3, 15, 127) == 66);
    lemma_fundamental_div_mod_converse(66int * 66int, m, 34int, 38int);
    lemma_fundamental_div_mod_converse(38int * 3, m, 0int, 114int);
    assert(mod_pow(3, 31, 127) == 114);
    lemma_fundamental_div_mod_converse(114int * 114int, m, 102int, 42int);
    lemma_fundamental_div_mod_converse(42int * 3, m, 0int, 126int);
    assert(mod_pow(3, 63, 127) == 126);
}

pub proof fn lemma_pow_127_by_3()
    ensures
        mod_pow(3, 42, 127) == 107,
{
    let m = 127int;
    lemma_fundamental_div_mod_converse(1, m, 0, 1);
    assert(mod_pow(3, 0, 127) == 1);
    lemma_fundamental_div_mod_converse(1int * 1int, m, 0int, 1int);
    lemma_fundamental_div_mod_converse(1int * 3, m, 0int, 3int);
    assert(mod_pow(3, 1, 127) == 3);
    lemma_fundamental_div_mod_converse(3int * 3int, m, 0int, 9int);
    assert(mod_pow(3, 2, 127) == 9);
    lemma_fundamental_div_mod_converse(9int * 9int, m, 0int, 81int);
    lemma_fundamental_div_mod_converse(81int * 3, m, 1int, 116int);
    assert(mod_pow(3, 5, 127) == 116);
    lemma_fundamental_div_mod_converse(116int * 116int, m, 105int, 121int);
    assert(mod_pow(3, 10, 127) == 121);
    lemma_fundamental_div_mod_converse(121int * 121int, m, 115int, 36int);
    lemma_fundamental_div_mod_converse(36int * 3, m, 0int, 108int);
    assert(mod_pow(3, 21, 127) == 108);
    lemma_fundamental_div_mod_converse(108int * 108int, m, 91int, 107int);
    assert(mod_pow(3, 42, 127) == 107);
}

pub proof fn lemma_pow_127_by_7()
    ensures
        mod_pow(3, 18, 127) == 4,
{
    let m = 127int;
    lemma_fundamental_div_mod_converse(1, m, 0, 1);
    assert(mod_pow(3, 0, 127) == 1);
    lemma_fundamental_div_mod_converse(1int * 1int, m, 0int, 1int);
    lemma_fundamental_div_mod_converse(1int * 3, m, 0int, 3int);
    assert(mod_pow(3, 1, 127) == 3);
    lemma_fundamental_div_mod_converse(3int * 3int, m, 0int, 9int);
    assert(mod_pow(3, 2, 127) == 9);
    lemma_fundamental_div_mod_converse(9int * 9int, m, 0int, 81int);
    assert(mod_pow(3, 4, 127) == 81);
    lemma_fundamental_div_mod_converse(81int * 81int, m, 51int, 84int);
    lemma_fundamental_div_mod_converse(84int * 3, m, 1int, 125int);
    assert(mod_pow(3, 9, 127) == 125);
    lemma_fundamental_div_mod_converse(125int * 125int, m, 123int, 4int);
    assert(mod_pow(3, 18, 127) == 4);
}

/// A Lucas–Pratt witness for 127: generator 3, and n - 1 = 2 * 3^2 * 7.
pub proof fn lemma_witness_127()
    ensures
        pratt_witness(127, 3, seq![2nat, 3nat, 3nat, 7nat]),
{
    lemma_prime_3();
    lemma_prime_7();
    lemma_pow_127_full();
    lemma_pow_127_by_2();
    lemma_pow_127_by_3();
    lemma_pow_127_by_7();
    let fs = seq![2nat, 3nat, 3nat, 7nat];
    assert(product(fs) == 126nat) by {
        assert(product(Seq::<nat>::empty()) == 1);
        assert(seq![7nat].len() == 1 && seq![7nat][0] == 7nat);
        assert(seq![7nat].drop_first() =~= Seq::<nat>::empty());
        assert(product(seq![7nat].drop_first()) == 1nat);
        assert(product(seq![7nat]) == seq![7nat][0] * product(seq![7nat].drop_first()));
        assert(product(seq![7nat]) == 7nat);
        assert(seq![3nat, 7nat].len() == 2 && seq![3nat, 7nat][0] == 3nat);
        assert(seq![3nat, 7nat].drop_first() =~= seq![7nat]);
        assert(product(seq![3nat, 7nat].drop_first()) == 7nat);
        assert(product(seq![3nat, 7nat]) == seq![3nat, 7nat][0] * product(seq![3nat, 7nat].drop_first()));
        assert(product(seq![3nat, 7nat]) == 21nat);
        assert(seq![3nat, 3nat, 7nat].len() == 3 && seq![3nat, 3nat, 7nat][0] == 3nat);
        assert(seq![3nat, 3nat, 7nat].drop_first() =~= seq![3nat, 7nat]);
        assert(product(seq![3nat, 3nat, 7nat].drop_first()) == 21nat);
        assert(product(seq![3nat, 3nat, 7nat]) == seq![3nat, 3nat, 7nat][0] * product(seq![3nat, 3nat, 7nat].drop_first()));
        assert(product(seq![3nat, 3nat, 7nat]) == 63nat);
        assert(seq![2nat, 3nat, 3nat, 7nat].len() == 4 && seq![2nat, 3nat, 3nat, 7nat][0] == 2nat);
        assert(seq![2nat, 3nat, 3nat, 7nat].drop_first() =~= seq![3nat, 3nat, 7nat]);
        assert(product(seq![2nat, 3nat, 3nat, 7nat].drop_first()) == 63nat);
        assert(product(seq![2nat, 3nat, 3nat, 7nat]) == seq![2nat, 3nat, 3nat, 7nat][0] * product(seq![2nat, 3nat, 3nat, 7nat].drop_first()));
        assert(product(seq![2nat, 3nat, 3nat, 7nat]) == 126nat);
    }
    assert forall|i: int| 0 <= i < fs.len() implies mod_pow(3, ((126nat) / fs[i]) as nat, 127) != 1 && is_prime(#[trigger] fs[i]) by {
        if i == 0 {
            assert(fs[i] == 2);
            lemma_fundamental_div_mod_converse(126int, 2int, 63int, 0int);
        } else if i == 1 {
            assert(fs[i] == 3);
            lemma_fundamental_div_mod_converse(126int, 3int, 42int, 0int);
        } else if i == 2 {
            assert(fs[i] == 3);
            lemma_fundamental_div_mod_converse(126int, 3int, 42int, 0int);
        } else if i == 3 {
            assert(fs[i] == 7);
            lemma_fundamental_div_mod_converse(126int, 7int, 18int, 0int);
        }
    }
}

/// 127 is prime.
pub proof fn lemma_prime_127()
    ensures
        is_prime(127),
{
    lemma_witness_127();
    lemma_pratt_prime(127, 3, seq![2nat, 3nat, 3nat, 7nat]);
}

pub proof fn lemma_pow_229_full()
    ensures
        mod_pow(6, 228, 229) == 1,
{
    let m = 229int;
    lemma_fundamental_div_mod_converse(1, m, 0, 1);
    assert(mod_pow(6, 0, 229) == 1);
    lemma_fundamental_div_mod_converse(1int * 1int, m, 0int, 1int);
    lemma_fundamental_div_mod_converse(1int * 6, m, 0int, 6int);
    assert(mod_pow(6, 1, 229) == 6);
    lemma_fundamental_div_mod_converse(6int * 6int, m, 0int, 36int);
    lemma_fundamental_div_mod_converse(36int * 6, m, 0int, 216int);
    assert(mod_pow(6, 3, 229) == 216);
    lemma_fundamental_div_mod_converse(216int * 216int, m, 203int, 169int);
    lemma_fundamental_div_mod_converse(169int * 6, m, 4int, 98int);
    assert(mod_pow(6, 7, 229) == 98);
    lemma_fundamental_div_mod_converse(98int * 98int, m, 41int, 215int);
    assert(mod_pow(6, 14, 229) == 215);
    lemma_fundamental_div_mod_converse(215int * 215int, m, 201int, 196int);
    assert(mod_pow(6, 28, 229) == 196);
    lemma_fundamental_div_mod_converse(196int * 196int, m, 167int, 173int);
    lemma_fundamental_div_mod_converse(173int * 6, m, 4int, 122int);
    assert(mod_pow(6, 57, 229) == 122);
    lemma_fundamental_div_mod_converse(122int * 122int, m, 64int, 228int);
    assert(mod_pow(6, 114, 229) == 228);
    lemma_fundamental_div_mod_converse(228int * 228int, m, 227int, 1int);
    assert(mod_pow(6, 228, 229) == 1);
}

pub proof fn lemma_pow_229_by_2()
    ensures
        mod_pow(6, 114, 229) == 228,
{
    let m = 229int;
    lemma_fundamental_div_mod_converse(1, m, 0, 1);
    assert(mod_pow(6, 0, 229) == 1);
    lemma_fundamental_div_mod_converse(1int * 1int, m, 0int, 1int);
    lemma_fundamental_div_mod_converse(1int * 6, m, 0int, 6int);
    assert(mod_pow(6, 1, 229) == 6);
    lemma_fundamental_div_mod_converse(6int * 6int, m, 0int, 36int);
    lemma_fundamental_div_mod_converse(36int * 6, m, 0int, 216int);
    assert(mod_pow(6, 3, 229) == 216);
    lemma_fundamental_div_mod_converse(216int * 216int, m, 203int, 169int);
    lemma_fundamental_div_mod_converse(169int * 6, m, 4int, 98int);
    assert(mod_pow(6, 7, 229) == 98);
    lemma_fundamental_div_mod_converse(98int * 98int, m, 41int, 215int);
    assert(mod_pow(6, 14, 229) == 215);
    lemma_fundamental_div_mod_converse(215int * 215int, m, 201int, 196int);
    assert(mod_pow(6, 28, 229) == 196);
    lemma_fundamental_div_mod_converse(196int * 196int, m, 167int, 173int);
    lemma_fundamental_div_mod_converse(173int * 6, m, 4int, 122int);
    assert(mod_pow(6, 57, 229) == 122);
    lemma_fundamental_div_mod_converse(122int * 122int, m, 64int, 228int);
    assert(mod_pow(6, 114, 229) == 228);
}

pub proof fn lemma_pow_229_by_3()
    ensures
        mod_pow(6, 76, 229) == 134,
{
    let m = 229int;
    lemma_fundamental_div_mod_converse(1, m, 0, 1);
    assert(mod_pow(6, 0, 229) == 1);
    lemma_fundamental_div_mod_converse(1int * 1int, m, 0int, 1int);
    lemma_fundamental_div_mod_converse(1int * 6, m, 0int, 6int);
    assert(mod_pow(6, 1, 229) == 6);
    lemma_fundamental_div_mod_converse(6int * 6int, m, 0int, 36int);
    assert(mod_pow(6, 2, 229) == 36);
    lemma_fundamental_div_mod_converse(36int * 36int, m, 5int, 151int);
    assert(mod_pow(6, 4, 229) == 151);
    lemma_fundamental_div_mod_converse(151int * 151int, m, 99int, 130int);
    lemma_fundamental_div_mod_converse(130int * 6, m, 3int, 93int);
    assert(mod_pow(6, 9, 229) == 93);
    lemma_fundamental_div_mod_converse(93int * 93int, m, 37int, 176int);
    lemma_fundamental_div_mod_converse(176int * 6, m, 4int, 140int);
    assert(mod_pow(6, 19, 229) == 140);
    lemma_fundamental_div_mod_converse(140int * 140int, m, 85int, 135int);
    assert(mod_pow(6, 38, 229) == 135);
    lemma_fundamental_div_mod_converse(135int * 135int, m, 79int, 134int);
    assert(mod_pow(6, 76, 229) == 134);
}

pub proof fn lemma_pow_229_by_19()
    ensures
        mod_pow(6, 12, 229) == 165,
{
    let m = 229int;
    lemma_fundamental_div_mod_converse(1, m, 0, 1);
    assert(mod_pow(6, 0, 229) == 1);
    lemma_fundamental_div_mod_converse(1int * 1int, m, 0int, 1int);
    lemma_fundamental_div_mod_converse(1int * 6, m, 0int, 6int);
    assert(mod_pow(6, 1, 229) == 6);
    lemma_fundamental_div_mod_converse(6int * 6int, m, 0int, 36int);
    lemma_fundamental_div_mod_converse(36int * 6, m, 0int, 216int);
    assert(mod_pow(6, 3, 229) == 216);
    lemma_fundamental_div_mod_converse(216int * 216int, m, 203int, 169int);
    assert(mod_pow(6, 6, 229) == 169);
    lemma_fundamental_div_mod_converse(169int * 169int, m, 124int, 165int);
    assert(mod_pow(6, 12, 229) == 165);
}

/// A Lucas–Pratt witness for 229: generator 6, and n - 1 = 2^2 * 3 * 19.
pub proof fn lemma_witness_229()
    ensures
        pratt_witness(229, 6, seq![2nat, 2nat, 3nat, 19nat]),
{
    lemma_prime_3();
    lemma_prime_19();
    lemma_pow_229_full();
    lemma_pow_229_by_2();
    lemma_pow_229_by_3();
    lemma_pow_229_by_19();
    let fs = seq![2nat, 2nat, 3nat, 19nat];
    assert(product(fs) == 228nat) by {
        assert(product(Seq::<nat>::empty()) == 1);
        assert(seq![19nat].len() == 1 && seq![19nat][0] == 19nat);
        assert(seq![19nat].drop_first() =~= Seq::<nat>::empty());
        assert(product(seq![19nat].drop_first()) == 1nat);
        assert(product(seq![19nat]) == seq![19nat][0] * product(seq![19nat].drop_first()));
        assert(product(seq![19nat]) == 19nat);
        assert(seq![3nat, 19nat].len() == 2 && seq![3nat, 19nat][0] == 3nat);
        assert(seq![3nat, 19nat].drop_first() =~= seq![19nat]);
        assert(product(seq![3nat, 19nat].drop_first()) == 19nat);
        assert(product(seq![3nat, 19nat]) == seq![3nat, 19nat][0] * product(seq![3nat, 19nat].drop_first()));
        assert(product(seq![3nat, 19nat]) == 57nat);
        assert(seq![2nat, 3nat, 19nat].len() == 3 && seq![2nat, 3nat, 19nat][0] == 2nat);
        assert(seq![2nat, 3nat, 19nat].drop_first() =~= seq![3nat, 19nat]);
        assert(product(seq![2nat, 3nat, 19nat].drop_first()) == 57nat);
        assert(product(seq![2nat, 3nat, 19nat]) == seq![2nat, 3nat, 19nat][0] * product(seq![2nat, 3nat, 19nat].drop_first()));
        assert(product(seq![2nat, 3nat, 19nat]) == 114nat);
        assert(seq![2nat, 2nat, 3nat, 19nat].len() == 4 && seq![2nat, 2nat, 3nat, 19nat][0] == 2nat);
        assert(seq![2nat, 2nat, 3nat, 19nat].drop_first() =~= seq![2nat, 3nat, 19nat]);
        assert(product(seq![2nat, 2nat, 3nat, 19nat].drop_first()) == 114nat);
        assert(product(seq![2nat, 2nat, 3nat, 19nat]) == seq![2nat, 2nat, 3nat, 19nat][0] * product(seq![2nat, 2nat, 3nat, 19nat].drop_first()));
        assert(product(seq![2nat, 2nat, 3nat, 19nat]) == 228nat);
    }
    assert forall|i: int| 0 <= i < fs.len() implies mod_pow(6, ((228nat) / fs[i]) as nat, 229) != 1 && is_prime(#[trigger] fs[i]) by {
        if i == 0 {
            assert(fs[i] == 2);
            lemma_fundamental_div_mod_converse(228int, 2int, 114int, 0int);
        } else if i == 1 {
            assert(fs[i] == 2);
            lemma_fundamental_div_mod_converse(228int, 2int, 114int, 0int);
        } else if i == 2 {
            assert(fs[i] == 3);
            lemma_fundamental_div_mod_converse(228int, 3int, 76int, 0int);
        } else if i == 3 {
            assert(fs[i] == 19);
            lemma_fundamental_div_mod_converse(228int, 19int, 12int, 0int);
        }
    }
}

/// 229 is prime.
pub proof fn lemma_prime_229()
    ensures
        is_prime(229),
{
    lemma_witness_229();
    lemma_pratt_prime(229, 6, seq![2nat, 2nat, 3nat, 19nat]);
}

pub proof fn lemma_pow_233_full()
    ensures
        mod_pow(3, 232, 233) == 1,
{
    let m = 233int;
    lemma_fundamental_div_mod_converse(1, m, 0, 1);
    assert(mod_pow(3, 0, 233) == 1);
    lemma_fundamental_div_mod_converse(1int * 1int, m, 0int, 1int);
    lemma_fundamental_div_mod_converse(1int * 3, m, 0int, 3int);
    assert(mod_pow(3, 1, 233) == 3);
    lemma_fundamental_div_mod_converse(3int * 3int, m, 0int, 9int);
    lemma_fundamental_div_mod_converse(9int * 3, m, 0int, 27int);
    assert(mod_pow(3, 3, 233) == 27);
    lemma_fundamental_div_mod_converse(27int * 27int, m, 3int, 30int);
    lemma_fundamental_div_mod_converse(30int * 3, m, 0int, 90int);
    assert(mod_pow(3, 7, 233) == 90);
    lemma_fundamental_div_mod_converse(90int * 90int, m, 34int, 178int);
    assert(mod_pow(3, 14, 233) == 178);
    lemma_fundamental_div_mod_converse(178int * 178int, m, 135int, 229int);
    lemma_fundamental_div_mod_converse(229int * 3, m, 2int, 221int);
    assert(mod_pow(3, 29, 233) == 221);
    lemma_fundamental_div_mod_converse(221int * 221int, m, 209int, 144int);
    assert(mod_pow(3, 58, 233) == 144);
    lemma_fundamental_div_mod_converse(144int * 144int, m, 88int, 232int);
    assert(mod_pow(3, 116, 233) == 232);
    lemma_fundamental_div_mod_converse(232int * 232int, m, 231int, 1int);
    assert(mod_pow(3, 232, 233) == 1);
}

pub proof fn lemma_pow_233_by_2()
    ensures
        mod_pow(3, 116, 233) == 232,
{
    let m = 233int;
    lemma_fundamental_div_mod_converse(1, m, 0, 1);
    assert(mod_pow(3, 0, 233) == 1);
    lemma_fundamental_div_mod_converse(1int * 1int, m, 0int, 1int);
    lemma_fundamental_div_mod_converse(1int * 3, m, 0int, 3int);
    assert(mod_pow(3, 1, 233) == 3);
    lemma_fundamental_div_mod_converse(3int * 3int, m, 0int, 9int);
    lemma_fundamental_div_mod_converse(9int * 3, m, 0int, 27int);
    assert(mod_pow(3, 3, 233) == 27);
    lemma_fundamental_div_mod_converse(27int * 27int, m, 3int, 30int);
    lemma_fundamental_div_mod_converse(30int * 3, m, 0int, 90int);
    assert(mod_pow(3, 7, 233) == 90);
    lemma_fundamental_div_mod_converse(90int * 90int, m, 34int, 178int);
    assert(mod_pow(3, 14, 233) == 178);
    lemma_fundamental_div_mod_converse(178int * 178int, m, 135int, 229int);
    lemma_fundamental_div_mod_converse(229int * 3, m, 2int, 221int);
    assert(mod_pow(3, 29, 233) == 221);
    lemma_fundamental_div_mod_converse(221int * 221int, m, 209int, 144int);
    assert(mod_pow(3, 58, 233) == 144);
    lemma_fundamental_div_mod_converse(144int * 144int, m, 88int, 232int);
    assert(mod_pow(3, 116, 233) == 232);
}

pub proof fn lemma_pow_233_by_29()
    ensures
        mod_pow(3, 8, 233) == 37,
{
    let m = 233int;
    lemma_fundamental_div_mod_converse(1, m, 0, 1);
    assert(mod_pow(3, 0, 233) == 1);
    lemma_fundamental_div_mod_converse(1int * 1int, m, 0int, 1int);
    lemma_fundamental_div_mod_converse(1int * 3, m, 0int, 3int);
    assert(mod_pow(3, 1, 233) == 3);
    lemma_fundamental_div_mod_converse(3int * 3int, m, 0int, 9int);
    assert(mod_pow(3, 2, 233) == 9);
    lemma_fundamental_div_mod_converse(9int * 9int, m, 0int, 81int);
    assert(mod_pow(3, 4, 233) == 81);
    lemma_fundamental_div_mod_converse(81int * 81int, m, 28int, 37int);
    assert(mod_pow(3, 8, 233) == 37);
}

/// A Lucas–Pratt witness for 233: generator 3, and n - 1 = 2^3 * 29.
pub proof fn lemma_witness_233()
    ensures
        pratt_witness(233, 3, seq![2nat, 2nat, 2nat, 29nat]),
{
    lemma_prime_29();
    lemma_pow_233_full();
    lemma_pow_233_by_2();
    lemma_pow_233_by_29();
    let fs = seq![2nat, 2nat, 2nat, 29nat];
    assert(product(fs) == 232nat) by {
        assert(product(Seq::<nat>::empty()) == 1);
        assert(seq![29nat].len() == 1 && seq![29nat][0] == 29nat);
        assert(seq![29nat].drop_first() =~= Seq::<nat>::empty());
        assert(product(seq![29nat].drop_first()) == 1nat);
        assert(product(seq![29nat]) == seq![29nat][0] * product(seq![29nat].drop_first()));
        assert(product(seq![29nat]) == 29nat);
        assert(seq![2nat, 29nat].len() == 2 && seq![2nat, 29nat][0] == 2nat);
        assert(seq![2nat, 29nat].drop_first() =~= seq![29nat]);
        assert(product(seq![2nat, 29nat].drop_first()) == 29nat);
        assert(product(seq![2nat, 29nat]) == seq![2nat, 29nat][0] * product(seq![2nat, 29nat].drop_first()));
        assert(product(seq![2nat, 29nat]) == 58nat);
        assert(seq![2nat, 2nat, 29nat].len() == 3 && seq![2nat, 2nat, 29nat][0] == 2nat);
        assert(seq![2nat, 2nat, 29nat].drop_first() =~= seq![2nat, 29nat]);
        assert(product(seq![2nat, 2nat, 29nat].drop_first()) == 58nat);
        assert(product(seq![2nat, 2nat, 29nat]) == seq![2nat, 2nat, 29nat][0] * product(seq![2nat, 2nat, 29nat].drop_first()));
        assert(product(seq![2nat, 2nat, 29nat]) == 116nat);
        assert(seq![2nat, 2nat, 2nat, 29nat].len() == 4 && seq![2nat, 2nat, 2nat, 29nat][0] == 2nat);
        assert(seq![2nat, 2nat, 2nat, 29nat].drop_first() =~= seq![2nat, 2nat, 29nat]);
        assert(product(seq![2nat, 2nat, 2nat, 29nat].drop_first()) == 116nat);
        assert(product(seq![2nat, 2nat, 2nat, 29nat]) == seq![2nat, 2nat, 2nat, 29nat][0] * product(seq![2nat, 2nat, 2nat, 29nat].drop_first()));
        assert(product(seq![2nat, 2nat, 2nat, 29nat]) == 232nat);
    }
    assert forall|i: int| 0 <= i < fs.len() implies mod_pow(3, ((232nat) / fs[i]) as nat, 233) != 1 && is_prime(#[trigger] fs[i]) by {
        if i == 0 {
            assert(fs[i] == 2);
            lemma_fundamental_div_mod_converse(232int, 2int, 116int, 0int);
        } else if i == 1 {
            assert(fs[i] == 2);
            lemma_fundamental_div_mod_converse(232int, 2int, 116int, 0int);
        } else if i == 2 {
            assert(fs[i] == 2);
            lemma_fundamental_div_mod_converse(232int, 2int, 116int, 0int);
        } else if i == 3 {
            assert(fs[i] == 29);
            lemma_fundamental_div_mod_converse(232int, 29int, 8int, 0int);
        }
    }
}

/// 233 is prime.
pub proof fn lemma_prime_233()
    ensures
        is_prime(233),
{
    lemma_witness_233();
    lemma_pratt_prime(233, 3, seq![2nat, 2nat, 2nat, 29nat]);
}

pub proof fn lemma_pow_271_full()
    ensures
        mod_pow(6, 270, 271) == 1,
{
    let m = 271int;
    lemma_fundamental_div_mod_converse(1, m, 0, 1);
    assert(mod_pow(6, 0, 271) == 1);
    lemma_fundamental_div_mod_converse(1int * 1int, m, 0int, 1int);
    lemma_fundamental_div_mod_converse(1int * 6, m, 0int, 6int);
    assert(mod_pow(6, 1, 271) == 6);
    lemma_fundamental_div_mod_converse(6int * 6int, m, 0int, 36int);
    assert(mod_pow(6, 2, 271) == 36);
    lemma_fundamental_div_mod_converse(36int * 36int, m, 4int, 212int);
    assert(mod_pow(6, 4, 271) == 212);
    lemma_fundamental_div_mod_converse(212int * 212int, m, 165int, 229int);
    assert(mod_pow(6, 8, 271) == 229);
    lemma_fundamental_div_mod_converse(229int * 229int, m, 193int, 138int);
    assert(mod_pow(6, 16, 271) == 138);
    lemma_fundamental_div_mod_converse(138int * 138int, m, 70int, 74int);
    lemma_fundamental_div_mod_converse(74int * 6, m, 1int, 173int);
    assert(mod_pow(6, 33, 271) == 173);
    lemma_fundamental_div_mod_converse(173int * 173int, m, 110int, 119int);
    lemma_fundamental_div_mod_converse(119int * 6, m, 2int, 172int);
    assert(mod_pow(6, 67, 271) == 172);
    lemma_fundamental_div_mod_converse(172int * 172int, m, 109int, 45int);
    lemma_fundamental_div_mod_converse(45int * 6, m, 0int, 270int);
    assert(mod_pow(6, 135, 271) == 270);
    lemma_fundamental_div_mod_converse(270int * 270int, m, 269int, 1int);
    assert(mod_pow(6, 270, 271) == 1);
}

pub proof fn lemma_pow_271_by_2()
    ensures
        mod_pow(6, 135, 271) == 270,
{
    let m = 271int;
    lemma_fundamental_div_mod_converse(1, m, 0, 1);
    assert(mod_pow(6, 0, 271) == 1);
    lemma_fundamental_div_mod_converse(1int * 1int, m, 0int, 1int);
    lemma_fundamental_div_mod_converse(1int * 6, m, 0int, 6int);
    assert(mod_pow(6, 1, 271) == 6);
    lemma_fundamental_div_mod_converse(6int * 6int, m, 0int, 36int);
    assert(mod_pow(6, 2, 271) == 36);
    lemma_fundamental_div_mod_converse(36int * 36int, m, 4int, 212int);
    assert(mod_pow(6, 4, 271) == 212);
    lemma_fundamental_div_mod_converse(212int * 212int, m, 165int, 229int);
    assert(mod_pow(6, 8, 271) == 229);
    lemma_fundamental_div_mod_converse(229int * 229int, m, 193int, 138int);
    assert(mod_pow(6, 16, 271) == 138);
    lemma_fundamental_div_mod_converse(138int * 138int, m, 70int, 74int);
    lemma_fundamental_div_mod_converse(74int * 6, m, 1int, 173int);
    assert(mod_pow(6, 33, 271) == 173);
    lemma_fundamental_div_mod_converse(173int * 173int, m, 110int, 119int);
    lemma_fundamental_div_mod_converse(119int * 6, m, 2int, 172int);
    assert(mod_pow(6, 67, 271) == 172);
    lemma_fundamental_div_mod_converse(172int * 172int, m, 109int, 45int);
    lemma_fundamental_div_mod_converse(45int * 6, m, 0int, 270int);
    assert(mod_pow(6, 135, 271) == 270);
}

pub proof fn lemma_pow_271_by_3()
    ensures
        mod_pow(6, 90, 271) == 242,
{
    let m = 271int;
    lemma_fundamental_div_mod_converse(1, m, 0, 1);
    assert(mod_pow(6, 0, 271) == 1);
    lemma_fundamental_div_mod_converse(1int * 1int, m, 0int, 1int);
    lemma_fundamental_div_mod_converse(1int * 6, m, 0int, 6int);
    assert(mod_pow(6, 1, 271) == 6);
    lemma_fundamental_div_mod_converse(6int * 6int, m, 0int, 36int);
    assert(mod_pow(6, 2, 271) == 36);
    lemma_fundamental_div_mod_converse(36int * 36int, m, 4int, 212int);
    lemma_fundamental_div_mod_converse(212int * 6, m, 4int, 188int);
    assert(mod_pow(6, 5, 271) == 188);
    lemma_fundamental_div_mod_converse(188int * 188int, m, 130int, 114int);
    lemma_fundamental_div_mod_converse(114int * 6, m, 2int, 142int);
    assert(mod_pow(6, 11, 271) == 142);
    lemma_fundamental_div_mod_converse(142int * 142int, m, 74int, 110int);
    assert(mod_pow(6, 22, 271) == 110);
    lemma_fundamental_div_mod_converse(110int * 110int, m, 44int, 176int);
    lemma_fundamental_div_mod_converse(176int * 6, m, 3int, 243int);
    assert(mod_pow(6, 45, 271) == 243);
    lemma_fundamental_div_mod_converse(243int * 243int, m, 217int, 242int);
    assert(mod_pow(6, 90, 271) == 242);
}

pub proof fn lemma_pow_271_by_5()
    ensures
        mod_pow(6, 54, 271) == 10,
{
    let m = 271int;
    lemma_fundamental_div_mod_converse(1, m, 0, 1);
    assert(mod_pow(6, 0, 271) == 1);
    lemma_fundamental_div_mod_converse(1int * 1int, m, 0int, 1int);
    lemma_fundamental_div_mod_converse(1int * 6, m, 0int, 6int);
    assert(mod_pow(6, 1, 271) == 6);
    lemma_fundamental_div_mod_converse(6int * 6int, m, 0int, 36int);
    lemma_fundamental_div_mod_converse(36int * 6, m, 0int, 216int);
    assert(mod_pow(6, 3, 271) == 216);
    lemma_fundamental_div_mod_converse(216int * 216int, m, 172int, 44int);
    assert(mod_pow(6, 6, 271) == 44);
    lemma_fundamental_div_mod_converse(44int * 44int, m, 7int, 39int);
    lemma_fundamental_div_mod_converse(39int * 6, m, 0int, 234int);
    assert(mod_pow(6, 13, 271) == 234);
    lemma_fundamental_div_mod_converse(234int * 234int, m, 202int, 14int);
    lemma_fundamental_div_mod_converse(14int * 6, m, 0int, 84int);
    assert(mod_pow(6, 27, 271) == 84);
    lemma_fundamental_div_mod_converse(84int * 84int, m, 26int, 10int);
    assert(mod_pow(6, 54, 271) == 10);
}

/// A Lucas–Pratt witness for 271: generator 6, and n - 1 = 2 * 3^3 * 5.
pub proof fn lemma_witness_271()
    ensures
        pratt_witness(271, 6, seq![2nat, 3nat, 3nat, 3nat, 5nat]),
{
    lemma_prime_3();
    lemma_prime_5();
    lemma_pow_271_full();
    lemma_pow_271_by_2();
    lemma_pow_271_by_3();
    lemma_pow_271_by_5();
    let fs = seq![2nat, 3nat, 3nat, 3nat, 5nat];
    assert(product(fs) == 270nat) by {
        assert(product(Seq::<nat>::empty()) == 1);
        assert(seq![5nat].len() == 1 && seq![5nat][0] == 5nat);
        assert(seq![5nat].drop_first() =~= Seq::<nat>::empty());
        assert(product(seq![5nat].drop_first()) == 1nat);
        assert(product(seq![5nat]) == seq![5nat][0] * product(seq![5nat].drop_first()));
        assert(product(seq![5nat]) == 5nat);
        assert(seq![3nat, 5nat].len() == 2 && seq![3nat, 5nat][0] == 3nat);
        assert(seq![3nat, 5nat].drop_first() =~= seq![5nat]);
        assert(product(seq![3nat, 5nat].drop_first()) == 5nat);
        assert(product(seq![3nat, 5nat]) == seq![3nat, 5nat][0] * product(seq![3nat, 5nat].drop_first()));
        assert(product(seq![3nat, 5nat]) == 15nat);
        assert(seq![3nat, 3nat, 5nat].len() == 3 && seq![3nat, 3nat, 5nat][0] == 3nat);
        assert(seq![3nat, 3nat, 5nat].drop_first() =~= seq![3nat, 5nat]);
        assert(product(seq![3nat, 3nat, 5nat].drop_first()) == 15nat);
        assert(product(seq![3nat, 3nat, 5nat]) == seq![3nat, 3nat, 5nat][0] * product(seq![3nat, 3nat, 5nat].drop_first()));
        assert(product(seq![3nat, 3nat, 5nat]) == 45nat);
        assert(seq![3nat, 3nat, 3nat, 5nat].len() == 4 && seq![3nat, 3nat, 3nat, 5nat][0] == 3nat);
        assert(seq![3nat, 3nat, 3nat, 5nat].drop_first() =~= seq![3nat, 3nat, 5nat]);
        assert(product(seq![3nat, 3nat, 3nat, 5nat].drop_first()) == 45nat);
        assert(product(seq![3nat, 3nat, 3nat, 5nat]) == seq![3nat, 3nat, 3nat, 5nat][0] * product(seq![3nat, 3nat, 3nat, 5nat].drop_first()));
        assert(product(seq![3nat, 3nat, 3nat, 5nat]) == 135nat);
        assert(seq![2nat, 3nat, 3nat, 3nat, 5nat].len() == 5 && seq![2nat, 3nat, 3nat, 3nat, 5nat][0] == 2nat);
        assert(seq![2nat, 3nat, 3nat, 3nat, 5nat].drop_first() =~= seq![3nat, 3nat, 3nat, 5nat]);
        assert(product(seq![2nat, 3nat, 3nat, 3nat, 5nat].drop_first()) == 135nat);
        assert(product(seq![2nat, 3nat, 3nat, 3nat, 5nat]) == seq![2nat, 3nat, 3nat, 3nat, 5nat][0] * product(seq![2nat, 3nat, 3nat, 3nat, 5nat].drop_first()));
        assert(product(seq![2nat, 3nat, 3nat, 3nat, 5nat]) == 270nat);
    }
    assert forall|i: int| 0 <= i < fs.len() implies mod_pow(6, ((270nat) / fs[i]) as nat, 271) != 1 && is_prime(#[trigger] fs[i]) by {
        if i == 0 {
            assert(fs[i] == 2);
            lemma_fundamental_div_mod_converse(270int, 2int, 135int, 0int);
        } else if i == 1 {
            assert(fs[i] == 3);
            lemma_fundamental_div_mod_converse(270int, 3int, 90int, 0int);
        } else if i == 2 {
            assert(fs[i] == 3);
            lemma_fundamental_div_mod_converse(270int, 3int, 90int, 0int);
        } else if i == 3 {
            assert(fs[i] == 3);
            lemma_fundamental_div_mod_converse(270int, 3int, 90int, 0int);
        } else if i == 4 {
            assert(fs[i] == 5);
            lemma_fundamental_div_mod_converse(270int, 5int, 54int, 0int);
        }
    }
}

/// 271 is prime.
pub proof fn lemma_prime_271()
    ensures
        is_prime(271),
{
    lemma_witness_271();
    lemma_pratt_prime(271, 6, seq![2nat, 3nat, 3nat, 3nat, 5nat]);
}

pub proof fn lemma_pow_311_full()
    ensures
        mod_pow(17, 310, 311) == 1,
{
    let m = 311int;
    lemma_fundamental_div_mod_converse(1, m, 0, 1);
    assert(mod_pow(17, 0, 311) == 1);
    lemma_fundamental_div_mod_converse(1int * 1int, m, 0int, 1int);
    lemma_fundamental_div_mod_converse(1int * 17, m, 0int, 17int);
    assert(mod_pow(17, 1, 311) == 17);
    lemma_fundamental_div_mod_converse(17int * 17int, m, 0int, 289int);
    assert(mod_pow(17, 2, 311) == 289);
    lemma_fundamental_div_mod_converse(289int * 289int, m, 268int, 173int);
    assert(mod_pow(17, 4, 311) == 173);
    lemma_fundamental_div_mod_converse(173int * 173int, m, 96int, 73int);
    lemma_fundamental_div_mod_converse(73int * 17, m, 3int, 308int);
    assert(mod_pow(17, 9, 311) == 308);
    lemma_fundamental_div_mod_converse(308int * 308int, m, 305int, 9int);
    lemma_fundamental_div_mod_converse(9int * 17, m, 0int, 153int);
    assert(mod_pow(17, 19, 311) == 153);
    lemma_fundamental_div_mod_converse(153int * 153int, m, 75int, 84int);
    assert(mod_pow(17, 38, 311) == 84);
    lemma_fundamental_div_mod_converse(84int * 84int, m, 22int, 214int);
    lemma_fundamental_div_mod_converse(214int * 17, m, 11int, 217int);
    assert(mod_pow(17, 77, 311) == 217);
    lemma_fundamental_div_mod_converse(217int * 217int, m, 151int, 128int);
    lemma_fundamental_div_mod_converse(128int * 17, m, 6int, 310int);
    assert(mod_pow(17, 155, 311) == 310);
    lemma_fundamental_div_mod_converse(310int * 310int, m, 309int, 1int);
    assert(mod_pow(17, 310, 311) == 1);
}

pub proof fn lemma_pow_311_by_2()
    ensures
        mod_pow(17, 155, 311) == 310,
{
    let m = 311int;
    lemma_fundamental_div_mod_converse(1, m, 0, 1);
    assert(mod_pow(17, 0, 311) == 1);
    lemma_fundamental_div_mod_converse(1int * 1int, m, 0int, 1int);
    lemma_fundamental_div_mod_converse(1int * 17, m, 0int, 17int);
    assert(mod_pow(17, 1, 311) == 17);
    lemma_fundamental_div_mod_converse(17int * 17int, m, 0int, 289int);
    assert(mod_pow(17, 2, 311) == 289);
    lemma_fundamental_div_mod_converse(289int * 289int, m, 268int, 173int);
    assert(mod_pow(17, 4, 311) == 173);
    lemma_fundamental_div_mod_converse(173int * 173int, m, 96int, 73int);
    lemma_fundamental_div_mod_converse(73int * 17, m, 3int, 308int);
    assert(mod_pow(17, 9, 311) == 308);
    lemma_fundamental_div_mod_converse(308int * 308int, m, 305int, 9int);
    lemma_fundamental_div_mod_converse(9int * 17, m, 0int, 153int);
    assert(mod_pow(17, 19, 311) == 153);
    lemma_fundamental_div_mod_converse(153int * 153int, m, 75int, 84int);
    assert(mod_pow(17, 38, 311) == 84);
    lemma_fundamental_div_mod_converse(84int * 84int, m, 22int, 214int);
    lemma_fundamental_div_mod_converse(214int * 17, m, 11int, 217int);
    assert(mod_pow(17, 77, 311) == 217);
    lemma_fundamental_div_mod_converse(217int * 217int, m, 151int, 128int);
    lemma_fundamental_div_mod_converse(128int * 17, m, 6int, 310int);
    assert(mod_pow(17, 155, 311) == 310);
}

pub proof fn lemma_pow_311_by_5()
    ensures
        mod_pow(17, 62, 311) == 36,
{
    let m = 311int;
    lemma_fundamental_div_mod_converse(1, m, 0, 1);
    assert(mod_pow(17, 0, 311) == 1);
    lemma_fundamental_div_mod_converse(1int * 1int, m, 0int, 1int);
    lemma_fundamental_div_mod_converse(1int * 17, m, 0int, 17int);
    assert(mod_pow(17, 1, 311) == 17);
    lemma_fundamental_div_mod_converse(17int * 17int, m, 0int, 289int);
    lemma_fundamental_div_mod_converse(289int * 17, m, 15int, 248int);
    assert(mod_pow(17, 3, 311) == 248);
    lemma_fundamental_div_mod_converse(248int * 248int, m, 197int, 237int);
    lemma_fundamental_div_mod_converse(237int * 17, m, 12int, 297int);
    assert(mod_pow(17, 7, 311) == 297);
    lemma_fundamental_div_mod_converse(297int * 297int, m, 283int, 196int);
    lemma_fundamental_div_mod_converse(196int * 17, m, 10int, 222int);
    assert(mod_pow(17, 15, 311) == 222);
    lemma_fundamental_div_mod_converse(222int * 222int, m, 158int, 146int);
    lemma_fundamental_div_mod_converse(146int * 17, m, 7int, 305int);
    assert(mod_pow(17, 31, 311) == 305);
    lemma_fundamental_div_mod_converse(305int * 305int, m, 299int, 36int);
    assert(mod_pow(17, 62, 311) == 36);
}

pub proof fn lemma_pow_311_by_31()
    ensures
        mod_pow(17, 10, 311) == 260,
{
    let m = 311int;
    lemma_fundamental_div_mod_converse(1, m, 0, 1);
    assert(mod_pow(17, 0, 311) == 1);
    lemma_fundamental_div_mod_converse(1int * 1int, m, 0int, 1int);
    lemma_fundamental_div_mod_converse(1int * 17, m, 0int, 17int);
    assert(mod_pow(17, 1, 311) == 17);
    lemma_fundamental_div_mod_converse(17int * 17int, m, 0int, 289int);
    assert(mod_pow(17, 2, 311) == 289);
    lemma_fundamental_div_mod_converse(289int * 289int, m, 268int, 173int);
    lemma_fundamental_div_mod_converse(173int * 17, m, 9int, 142int);
    assert(mod_pow(17, 5, 311) == 142);
    lemma_fundamental_div_mod_converse(142int * 142int, m, 64int, 260int);
    assert(mod_pow(17, 10, 311) == 260);
}

/// A Lucas–Pratt witness for 311: generator 17, and n - 1 = 2 * 5 * 31.
pub proof fn lemma_witness_311()
    ensures
        pratt_witness(311, 17, seq![2nat, 5nat, 31nat]),
{
    lemma_prime_5();
    lemma_prime_31();
    lemma_pow_311_full();
    lemma_pow_311_by_2();
    lemma_pow_311_by_5();
    lemma_pow_311_by_31();
    let fs = seq![2nat, 5nat, 31nat];
    assert(product(fs) == 310nat) by {
        assert(product(Seq::<nat>::empty()) == 1);
        assert(seq![31nat].len() == 1 && seq![31nat][0] == 31nat);
        assert(seq![31nat].drop_first() =~= Seq::<nat>::empty());
        assert(product(seq![31nat].drop_first()) == 1nat);
        assert(product(seq![31nat]) == seq![31nat][0] * product(seq![31nat].drop_first()));
        assert(product(seq![31nat]) == 31nat);
        assert(seq![5nat, 31nat].len() == 2 && seq![5nat, 31nat][0] == 5nat);
        assert(seq![5nat, 31nat].drop_first() =~= seq![31nat]);
        assert(product(seq![5nat, 31nat].drop_first()) == 31nat);
        assert(product(seq![5nat, 31nat]) == seq![5nat, 31nat][0] * product(seq![5nat, 31nat].drop_first()));
        assert(product(seq![5nat, 31nat]) == 155nat);
        assert(seq![2nat, 5nat, 31nat].len() == 3 && seq![2nat, 5nat, 31nat][0] == 2nat);
        assert(seq![2nat, 5nat, 31nat].drop_first() =~= seq![5nat, 31nat]);
        assert(product(seq![2nat, 5nat, 31nat].drop_first()) == 155nat);
        assert(product(seq![2nat, 5nat, 31nat]) == seq![2nat, 5nat, 31nat][0] * product(seq![2nat, 5nat, 31nat].drop_first()));
        assert(product(seq![2nat, 5nat, 31nat]) == 310nat);
    }
    assert forall|i: int| 0 <= i < fs.len() implies mod_pow(17, ((310nat) / fs[i]) as nat, 311) != 1 && is_prime(#[trigger] fs[i]) by {
        if i == 0 {
            assert(fs[i] == 2);
            lemma_fundamental_div_mod_converse(310int, 2int, 155int, 0int);
        } else if i == 1 {
            assert(fs[i] == 5);
            lemma_fundamental_div_mod_converse(310int, 5int, 62int, 0int);
        } else if i == 2 {
            assert(fs[i] == 31);
            lemma_fundamental_div_mod_converse(310int, 31int, 10int, 0int);
        }
    }
}

/// 311 is prime.
pub proof fn lemma_prime_311()
    ensures
        is_prime(311),
{
    lemma_witness_311();
    lemma_pratt_prime(311, 17, seq![2nat, 5nat, 31nat]);
}

pub proof fn lemma_pow_491_full()
    ensures
        mod_pow(2, 490, 491) == 1,
{
    let m = 491int;
    lemma_fundamental_div_mod_converse(1, m, 0, 1);
    assert(mod_pow(2, 0, 491) == 1);
    lemma_fundamental_div_mod_converse(1int * 1int, m, 0int, 1int);
    lemma_fundamental_div_mod_converse(1int * 2, m, 0int, 2int);
    assert(mod_pow(2, 1, 491) == 2);
    lemma_fundamental_div_mod_converse(2int * 2int, m, 0int, 4int);
    lemma_fundamental_div_mod_converse(4int * 2, m, 0int, 8int);
    assert(mod_pow(2, 3, 491) == 8);
    lemma_fundamental_div_mod_converse(8int * 8int, m, 0int, 64int);
    lemma_fundamental_div_mod_converse(64int * 2, m, 0int, 128int);
    assert(mod_pow(2, 7, 491) == 128);
    lemma_fundamental_div_mod_converse(128int * 128int, m, 33int, 181int);
    lemma_fundamental_div_mod_converse(181int * 2, m, 0int, 362int);
    assert(mod_pow(2, 15, 491) == 362);
    lemma_fundamental_div_mod_converse(362int * 362int, m, 266int, 438int);
    assert(mod_pow(2, 30, 491) == 438);
    lemma_fundamental_div_mod_converse(438int * 438int, m, 390int, 354int);
    lemma_fundamental_div_mod_converse(354int * 2, m, 1int, 217int);
    assert(mod_pow(2, 61, 491) == 217);
    lemma_fundamental_div_mod_converse(217int * 217int, m, 95int, 444int);
    assert(mod_pow(2, 122, 491) == 444);
    lemma_fundamental_div_mod_converse(444int * 444int, m, 401int, 245int);
    lemma_fundamental_div_mod_converse(245int * 2, m, 0int, 490int);
    assert(mod_pow(2, 245, 491) == 490);
    lemma_fundamental_div_mod_converse(490int * 490int, m, 489int, 1int);
    assert(mod_pow(2, 490, 491) == 1);
}

pub proof fn lemma_pow_491_by_2()
    ensures
        mod_pow(2, 245, 491) == 490,
{
    let m = 491int;
    lemma_fundamental_div_mod_converse(1, m, 0, 1);
    assert(mod_pow(2, 0, 491) == 1);
    lemma_fundamental_div_mod_converse(1int * 1int, m, 0int, 1int);
    lemma_fundamental_div_mod_converse(1int * 2, m, 0int, 2int);
    assert(mod_pow(2, 1, 491) == 2);
    lemma_fundamental_div_mod_converse(2int * 2int, m, 0int, 4int);
    lemma_fundamental_div_mod_converse(4int * 2, m, 0int, 8int);
    assert(mod_pow(2, 3, 491) == 8);
    lemma_fundamental_div_mod_converse(8int * 8int, m, 0int, 64int);
    lemma_fundamental_div_mod_converse(64int * 2, m, 0int, 128int);
    assert(mod_pow(2, 7, 491) == 128);
    lemma_fundamental_div_mod_converse(128int * 128int, m, 33int, 181int);
    lemma_fundamental_div_mod_converse(181int * 2, m, 0int, 362int);
    assert(mod_pow(2, 15, 491) == 362);
    lemma_fundamental_div_mod_converse(362int * 362int, m, 266int, 438int);
    assert(mod_pow(2, 30, 491) == 438);
    lemma_fundamental_div_mod_converse(438int * 438int, m, 390int, 354int);
    lemma_fundamental_div_mod_converse(354int * 2, m, 1int, 217int);
    assert(mod_pow(2, 61, 491) == 217);
    lemma_fundamental_div_mod_converse(217int * 217int, m, 95int, 444int);
    assert(mod_pow(2, 122, 491) == 444);
    lemma_fundamental_div_mod_converse(444int * 444int, m, 401int, 245int);
    lemma_fundamental_div_mod_converse(245int * 2, m, 0int, 490int);
    assert(mod_pow(2, 245, 491) == 490);
}

pub proof fn lemma_pow_491_by_5()
    ensures
        mod_pow(2, 98, 491) == 381,
{
    let m = 491int;
    lemma_fundamental_div_mod_converse(1, m, 0, 1);
    assert(mod_pow(2, 0, 491) == 1);
    lemma_fundamental_div_mod_converse(1int * 1int, m, 0int, 1int);
    lemma_fundamental_div_mod_converse(1int * 2, m, 0int, 2int);
    assert(mod_pow(2, 1, 491) == 2);
    lemma_fundamental_div_mod_converse(2int * 2int, m, 0int, 4int);
    lemma_fundamental_div_mod_converse(4int * 2, m, 0int, 8int);
    assert(mod_pow(2, 3, 491) == 8);
    lemma_fundamental_div_mod_converse(8int * 8int, m, 0int, 64int);
    assert(mod_pow(2, 6, 491) == 64);
    lemma_fundamental_div_mod_converse(64int * 64int, m, 8int, 168int);
    assert(mod_pow(2, 12, 491) == 168);
    lemma_fundamental_div_mod_converse(168int * 168int, m, 57int, 237int);
    assert(mod_pow(2, 24, 491) == 237);
    lemma_fundamental_div_mod_converse(237int * 237int, m, 114int, 195int);
    lemma_fundamental_div_mod_converse(195int * 2, m, 0int, 390int);
    assert(mod_pow(2, 49, 491) == 390);
    lemma_fundamental_div_mod_converse(390int * 390int, m, 309int, 381int);
    assert(mod_pow(2, 98, 491) == 381);
}

pub proof fn lemma_pow_491_by_7()
    ensures
        mod_pow(2, 70, 491) == 138,
{
    let m = 491int;
    lemma_fundamental_div_mod_converse(1, m, 0, 1);
    assert(mod_pow(2, 0, 491) == 1);
    lemma_fundamental_div_mod_converse(1int * 1int, m, 0int, 1int);
    lemma_fundamental_div_mod_converse(1int * 2, m, 0int, 2int);
    assert(mod_pow(2, 1, 491) == 2);
    lemma_fundamental_div_mod_converse(2int * 2int, m, 0int, 4int);
    assert(mod_pow(2, 2, 491) == 4);
    lemma_fundamental_div_mod_converse(4int * 4int, m, 0int, 16int);
    assert(mod_pow(2, 4, 491) == 16);
    lemma_fundamental_div_mod_converse(16int * 16int, m, 0int, 256int);
    assert(mod_pow(2, 8, 491) == 256);
    lemma_fundamental_div_mod_converse(256int * 256int, m, 133int, 233int);
    lemma_fundamental_div_mod_converse(233int * 2, m, 0int, 466int);
    assert(mod_pow(2, 17, 491) == 466);
    lemma_fundamental_div_mod_converse(466int * 466int, m, 442int, 134int);
    lemma_fundamental_div_mod_converse(134int * 2, m, 0int, 268int);
    assert(mod_pow(2, 35, 491) == 268);
    lemma_fundamental_div_mod_converse(268int * 268int, m, 146int, 138int);
    assert(mod_pow(2, 70, 491) == 138);
}

/// A Lucas–Pratt witness for 491: generator 2, and n - 1 = 2 * 5 * 7^2.
pub proof fn lemma_witness_491()
    ensures
        pratt_witness(491, 2, seq![2nat, 5nat, 7nat, 7nat]),
{
    lemma_prime_5();
    lemma_prime_7();
    lemma_pow_491_full();
    lemma_pow_491_by_2();
    lemma_pow_491_by_5();
    lemma_pow_491_by_7();
    let fs = seq![2nat, 5nat, 7nat, 7nat];
    assert(product(fs) == 490nat) by {
        assert(product(Seq::<nat>::empty()) == 1);
        assert(seq![7nat].len() == 1 && seq![7nat][0] == 7nat);
        assert(seq![7nat].drop_first() =~= Seq::<nat>::empty());
        assert(product(seq![7nat].drop_first()) == 1nat);
        assert(product(seq![7nat]) == seq![7nat][0] * product(seq![7nat].drop_first()));
        assert(product(seq![7nat]) == 7nat);
        assert(seq![7nat, 7nat].len() == 2 && seq![7nat, 7nat][0] == 7nat);
        assert(seq![7nat, 7nat].drop_first() =~= seq![7nat]);
        assert(product(seq![7nat, 7nat].drop_first()) == 7nat);
        assert(product(seq![7nat, 7nat]) == seq![7nat, 7nat][0] * product(seq![7nat, 7nat].drop_first()));
        assert(product(seq![7nat, 7nat]) == 49nat);
        assert(seq![5nat, 7nat, 7nat].len() == 3 && seq![5nat, 7nat, 7nat][0] == 5nat);
        assert(seq![5nat, 7nat, 7nat].drop_first() =~= seq![7nat, 7nat]);
        assert(product(seq![5nat, 7nat, 7nat].drop_first()) == 49nat);
        assert(product(seq![5nat, 7nat, 7nat]) == seq![5nat, 7nat, 7nat][0] * product(seq![5nat, 7nat, 7nat].drop_first()));
        assert(product(seq![5nat, 7nat, 7nat]) == 245nat);
        assert(seq![2nat, 5nat, 7nat, 7nat].len() == 4 && seq![2nat, 5nat, 7nat, 7nat][0] == 2nat);
        assert(seq![2nat, 5nat, 7nat, 7nat].drop_first() =~= seq![5nat, 7nat, 7nat]);
        assert(product(seq![2nat, 5nat, 7nat, 7nat].drop_first()) == 245nat);
        assert(product(seq![2nat, 5nat, 7nat, 7nat]) == seq![2nat, 5nat, 7nat, 7nat][0] * product(seq![2nat, 5nat, 7nat, 7nat].drop_first()));
        assert(product(seq![2nat, 5nat, 7nat, 7nat]) == 490nat);
    }
    assert forall|i: int| 0 <= i < fs.len() implies mod_pow(2, ((490nat) / fs[i]) as nat, 491) != 1 && is_prime(#[trigger] fs[i]) by {
        if i == 0 {
            assert(fs[i] == 2);
            lemma_fundamental_div_mod_converse(490int, 2int, 245int, 0int);
        } else if i == 1 {
            assert(fs[i] == 5);
            lemma_fundamental_div_mod_converse(490int, 5int, 98int, 0int);
        } else if i == 2 {
            assert(fs[i] == 7);
            lemma_fundamental_div_mod_converse(490int, 7int, 70int, 0int);
        } else if i == 3 {
            assert(fs[i] == 7);
            lemma_fundamental_div_mod_converse(490int, 7int, 70int, 0int);
        }
    }
}

/// 491 is prime.
pub proof fn lemma_prime_491()
    ensures
        is_prime(491),
{
    lemma_witness_491();
    lemma_pratt_prime(491, 2, seq![2nat, 5nat, 7nat, 7nat]);
}

pub proof fn lemma_pow_911_full()
    ensures
        mod_pow(17, 910, 911) == 1,
{
    let m = 911int;
    lemma_fundamental_div_mod_converse(1, m, 0, 1);
    assert(mod_pow(17, 0, 911) == 1);
    lemma_fundamental_div_mod_converse(1int * 1int, m, 0int, 1int);
    lemma_fundamental_div_mod_converse(1int * 17, m, 0int, 17int);
    assert(mod_pow(17, 1, 911) == 17);
    lemma_fundamental_div_mod_converse(17int * 17int, m, 0int, 289int);
    lemma_fundamental_div_mod_converse(289int * 17, m, 5int, 358int);
    assert(mod_pow(17, 3, 911) == 358);
    lemma_fundamental_div_mod_converse(358int * 358int, m, 140int, 624int);
    lemma_fundamental_div_mod_converse(624int * 17, m, 11int, 587int);
    assert(mod_pow(17, 7, 911) == 587);
    lemma_fundamental_div_mod_converse(587int * 587int, m, 378int, 211int);
    assert(mod_pow(17, 14, 911) == 211);
    lemma_fundamental_div_mod_converse(211int * 211int, m, 48int, 793int);
    assert(mod_pow(17, 28, 911) == 793);
    lemma_fundamental_div_mod_converse(793int * 793int, m, 690int, 259int);
    assert(mod_pow(17, 56, 911) == 259);
    lemma_fundamental_div_mod_converse(259int * 259int, m, 73int, 578int);
    lemma_fundamental_div_mod_converse(578int * 17, m, 10int, 716int);
    assert(mod_pow(17, 113, 911) == 716);
    lemma_fundamental_div_mod_converse(716int * 716int, m, 562int, 674int);
    lemma_fundamental_div_mod_converse(674int * 17, m, 12int, 526int);
    assert(mod_pow(17, 227, 911) == 526);
    lemma_fundamental_div_mod_converse(526int * 526int, m, 303int, 643int);
    lemma_fundamental_div_mod_converse(643int * 17, m, 11int, 910int);
    assert(mod_pow(17, 455, 911) == 910);
    lemma_fundamental_div_mod_converse(910int * 910int, m, 909int, 1int);
    assert(mod_pow(17, 910, 911) == 1);
}

pub proof fn lemma_pow_911_by_2()
    ensures
        mod_pow(17, 455, 911) == 910,
{
    let m = 911int;
    lemma_fundamental_div_mod_converse(1, m, 0, 1);
    assert(mod_pow(17, 0, 911) == 1);
    lemma_fundamental_div_mod_converse(1int * 1int, m, 0int, 1int);
    lemma_fundamental_div_mod_converse(1int * 17, m, 0int, 17int);
    assert(mod_pow(17, 1, 911) == 17);
    lemma_fundamental_div_mod_converse(17int * 17int, m, 0int, 289int);
    lemma_fundamental_div_mod_converse(289int * 17, m, 5int, 358int);
    assert(mod_pow(17, 3, 911) == 358);
    lemma_fundamental_div_mod_converse(358int * 358int, m, 140int, 624int);
    lemma_fundamental_div_mod_converse(624int * 17, m, 11int, 587int);
    assert(mod_pow(17, 7, 911) == 587);
    lemma_fundamental_div_mod_converse(587int * 587int, m, 378int, 211int);
    assert(mod_pow(17, 14, 911) == 211);
    lemma_fundamental_div_mod_converse(211int * 211int, m, 48int, 793int);
    assert(mod_pow(17, 28, 911) == 793);
    lemma_fundamental_div_mod_converse(793int * 793int, m, 690int, 259int);
    assert(mod_pow(17, 56, 911) == 259);
    lemma_fundamental_div_mod_converse(259int * 259int, m, 73int, 578int);
    lemma_fundamental_div_mod_converse(578int * 17, m, 10int, 716int);
    assert(mod_pow(17, 113, 911) == 716);
    lemma_fundamental_div_mod_converse(716int * 716int, m, 562int, 674int);
    lemma_fundamental_div_mod_converse(674int * 17, m, 12int, 526int);
    assert(mod_pow(17, 227, 911) == 526);
    lemma_fundamental_div_mod_converse(526int * 526int, m, 303int, 643int);
    lemma_fundamental_div_mod_converse(643int * 17, m, 11int, 910int);
    assert(mod_pow(17, 455, 911) == 910);
}

pub proof fn lemma_pow_911_by_5()
    ensures
        mod_pow(17, 182, 911) == 19,
{
    let m = 911int;
    lemma_fundamental_div_mod_converse(1, m, 0, 1);
    assert(mod_pow(17, 0, 911) == 1);
    lemma_fundamental_div_mod_converse(1int * 1int, m, 0int, 1int);
    lemma_fundamental_div_mod_converse(1int * 17, m, 0int, 17int);
    assert(mod_pow(17, 1, 911) == 17);
    lemma_fundamental_div_mod_converse(17int * 17int, m, 0int, 289int);
    assert(mod_pow(17, 2, 911) == 289);
    lemma_fundamental_div_mod_converse(289int * 289int, m, 91int, 620int);
    lemma_fundamental_div_mod_converse(620int * 17, m, 11int, 519int);
    assert(mod_pow(17, 5, 911) == 519);
    lemma_fundamental_div_mod_converse(519int * 519int, m, 295int, 616int);
    lemma_fundamental_div_mod_converse(616int * 17, m, 11int, 451int);
    assert(mod_pow(17, 11, 911) == 451);
    lemma_fundamental_div_mod_converse(451int * 451int, m, 223int, 248int);
    assert(mod_pow(17, 22, 911) == 248);
    lemma_fundamental_div_mod_converse(248int * 248int, m, 67int, 467int);
    lemma_fundamental_div_mod_converse(467int * 17, m, 8int, 651int);
    assert(mod_pow(17, 45, 911) == 651);
    lemma_fundamental_div_mod_converse(651int * 651int, m, 465int, 186int);
    lemma_fundamental_div_mod_converse(186int * 17, m, 3int, 429int);
    assert(mod_pow(17, 91, 911) == 429);
    lemma_fundamental_div_mod_converse(429int * 429int, m, 202int, 19int);
    assert(mod_pow(17, 182, 911) == 19);
}

pub proof fn lemma_pow_911_by_7()
    ensures
        mod_pow(17, 130, 911) == 49,
{
    let m = 911int;
    lemma_fundamental_div_mod_converse(1, m, 0, 1);
    assert(mod_pow(17, 0, 911) == 1);
    lemma_fundamental_div_mod_converse(1int * 1int, m, 0int, 1int);
    lemma_fundamental_div_mod_converse(1int * 17, m, 0int, 17int);
    assert(mod_pow(17, 1, 911) == 17);
    lemma_fundamental_div_mod_converse(17int * 17int, m, 0int, 289int);
    assert(mod_pow(17, 2, 911) == 289);
    lemma_fundamental_div_mod_converse(289int * 289int, m, 91int, 620int);
    assert(mod_pow(17, 4, 911) == 620);
    lemma_fundamental_div_mod_converse(620int * 620int, m, 421int, 869int);
    assert(mod_pow(17, 8, 911) == 869);
    lemma_fundamental_div_mod_converse(869int * 869int, m, 828int, 853int);
    assert(mod_pow(17, 16, 911) == 853);
    lemma_fundamental_div_mod_converse(853int * 853int, m, 798int, 631int);
    assert(mod_pow(17, 32, 911) == 631);
    lemma_fundamental_div_mod_converse(631int * 631int, m, 437int, 54int);
    lemma_fundamental_div_mod_converse(54int * 17, m, 1int, 7int);
    assert(mod_pow(17, 65, 911) == 7);
    lemma_fundamental_div_mod_converse(7int * 7int, m, 0int, 49int);
    assert(mod_pow(17, 130, 911) == 49);
}

pub proof fn lemma_pow_911_by_13()
    ensures
        mod_pow(17, 70, 911) == 900,
{
    let m = 911int;
    lemma_fundamental_div_mod_converse(1, m, 0, 1);
    assert(mod_pow(17, 0, 911) == 1);
    lemma_fundamental_div_mod_converse(1int * 1int, m, 0int, 1int);
    lemma_fundamental_div_mod_converse(1int * 17, m, 0int, 17int);
    assert(mod_pow(17, 1, 911) == 17);
    lemma_fundamental_div_mod_converse(17int * 17int, m, 0int, 289int);
    assert(mod_pow(17, 2, 911) == 289);
    lemma_fundamental_div_mod_converse(289int * 289int, m, 91int, 620int);
    assert(mod_pow(17, 4, 911) == 620);
    lemma_fundamental_div_mod_converse(620int * 620int, m, 421int, 869int);
    assert(mod_pow(17, 8, 911) == 869);
    lemma_fundamental_div_mod_converse(869int * 869int, m, 828int, 853int);
    lemma_fundamental_div_mod_converse(853int * 17, m, 15int, 836int);
    assert(mod_pow(17, 17, 911) == 836);
    lemma_fundamental_div_mod_converse(836int * 836int, m, 767int, 159int);
    lemma_fundamental_div_mod_converse(159int * 17, m, 2int, 881int);
    assert(mod_pow(17, 35, 911) == 881);
    lemma_fundamental_div_mod_converse(881int * 881int, m, 851int, 900int);
    assert(mod_pow(17, 70, 911) == 900);
}

/// A Lucas–Pratt witness for 911: generator 17, and n - 1 = 2 * 5 * 7 * 13.
pub proof fn lemma_witness_911()
    ensures
        pratt_witness(911, 17, seq![2nat, 5nat, 7nat, 13nat]),
{
    lemma_prime_5();
    lemma_prime_7();
    lemma_prime_13();
    lemma_pow_911_full();
    lemma_pow_911_by_2();
    lemma_pow_911_by_5();
    lemma_pow_911_by_7();
    lemma_pow_911_by_13();
    let fs = seq![2nat, 5nat, 7nat, 13nat];
    assert(product(fs) == 910nat) by {
        assert(product(Seq::<nat>::empty()) == 1);
        assert(seq![13nat].len() == 1 && seq![13nat][0] == 13nat);
        assert(seq![13nat].drop_first() =~= Seq::<nat>::empty());
        assert(product(seq![13nat].drop_first()) == 1nat);
        assert(product(seq![13nat]) == seq![13nat][0] * product(seq![13nat].drop_first()));
        assert(product(seq![13nat]) == 13nat);
        assert(seq![7nat, 13nat].len() == 2 && seq![7nat, 13nat][0] == 7nat);
        assert(seq![7nat, 13nat].drop_first() =~= seq![13nat]);
        assert(product(seq![7nat, 13nat].drop_first()) == 13nat);
        assert(product(seq![7nat, 13nat]) == seq![7nat, 13nat][0] * product(seq![7nat, 13nat].drop_first()));
        assert(product(seq![7nat, 13nat]) == 91nat);
        assert(seq![5nat, 7nat, 13nat].len() == 3 && seq![5nat, 7nat, 13nat][0] == 5nat);
        assert(seq![5nat, 7nat, 13nat].drop_first() =~= seq![7nat, 13nat]);
        assert(product(seq![5nat, 7nat, 13nat].drop_first()) == 91nat);
        assert(product(seq![5nat, 7nat, 13nat]) == seq![5nat, 7nat, 13nat][0] * product(seq![5nat, 7nat, 13nat].drop_first()));
        assert(product(seq![5nat, 7nat, 13nat]) == 455nat);
        assert(seq![2nat, 5nat, 7nat, 13nat].len() == 4 && seq![2nat, 5nat, 7nat, 13nat][0] == 2nat);
        assert(seq![2nat, 5nat, 7nat, 13nat].drop_first() =~= seq![5nat, 7nat, 13nat]);
        assert(product(seq![2nat, 5nat, 7nat, 13nat].drop_first()) == 455nat);
        assert(product(seq![2nat, 5nat, 7nat, 13nat]) == seq![2nat, 5nat, 7nat, 13nat][0] * product(seq![2nat, 5nat, 7nat, 13nat].drop_first()));
        assert(product(seq![2nat, 5nat, 7nat, 13nat]) == 910nat);
    }
    assert forall|i: int| 0 <= i < fs.len() implies mod_pow(17, ((910nat) / fs[i]) as nat, 911) != 1 && is_prime(#[trigger] fs[i]) by {
        if i == 0 {
            assert(fs[i] == 2);
            lemma_fundamental_div_mod_converse(910int, 2int, 455int, 0int);
        } else if i == 1 {
            assert(fs[i] == 5);
            lemma_fundamental_div_mod_converse(910int, 5int, 182int, 0int);
        } else if i == 2 {
            assert(fs[i] == 7);
            lemma_fundamental_div_mod_converse(910int, 7int, 130int, 0int);
        } else if i == 3 {
            assert(fs[i] == 13);
            lemma_fundamental_div_mod_converse(910int, 13int, 70int, 0int);
        }
    }
}

/// 911 is prime.
pub proof fn lemma_prime_911()
    ensures
        is_prime(911),
{
    lemma_witness_911();
    lemma_pratt_prime(911, 17, seq![2nat, 5nat, 7nat, 13nat]);
}

pub proof fn lemma_pow_983_full()
    ensures
        mod_pow(5, 982, 983) == 1,
{
    let m = 983int;
    lemma_fundamental_div_mod_converse(1, m, 0, 1);
    assert(mod_pow(5, 0, 983) == 1);
    lemma_fundamental_div_mod_converse(1int * 1int, m, 0int, 1int);
    lemma_fundamental_div_mod_converse(1int * 5, m, 0int, 5int);
    assert(mod_pow(5, 1, 983) == 5);
    lemma_fundamental_div_mod_converse(5int * 5int, m, 0int, 25int);
    lemma_fundamental_div_mod_converse(25int * 5, m, 0int, 125int);
    assert(mod_pow(5, 3, 983) == 125);
    lemma_fundamental_div_mod_converse(125int * 125int, m, 15int, 880int);
    lemma_fundamental_div_mod_converse(880int * 5, m, 4int, 468int);
    assert(mod_pow(5, 7, 983) == 468);
    lemma_fundamental_div_mod_converse(468int * 468int, m, 222int, 798int);
    lemma_fundamental_div_mod_converse(798int * 5, m, 4int, 58int);
    assert(mod_pow(5, 15, 983) == 58);
    lemma_fundamental_div_mod_converse(58int * 58int, m, 3int, 415int);
    assert(mod_pow(5, 30, 983) == 415);
    lemma_fundamental_div_mod_converse(415int * 415int, m, 175int, 200int);
    lemma_fundamental_div_mod_converse(200int * 5, m, 1int, 17int);
    assert(mod_pow(5, 61, 983) == 17);
    lemma_fundamental_div_mod_converse(17int * 17int, m, 0int, 289int);
    assert(mod_pow(5, 122, 983) == 289);
    lemma_fundamental_div_mod_converse(289int * 289int, m, 84int, 949int);
    lemma_fundamental_div_mod_converse(949int * 5, m, 4int, 813int);
    assert(mod_pow(5, 245, 983) == 813);
    lemma_fundamental_div_mod_converse(813int * 813int, m, 672int, 393int);
    lemma_fundamental_div_mod_converse(393int * 5, m, 1int, 982int);
    assert(mod_pow(5, 491, 983) == 982);
    lemma_fundamental_div_mod_converse(982int * 982int, m, 981int, 1int);
    assert(mod_pow(5, 982, 983) == 1);
}

pub proof fn lemma_pow_983_by_2()
    ensures
        mod_pow(5, 491, 983) == 982,
{
    let m = 983int;
    lemma_fundamental_div_mod_converse(1, m, 0, 1);
    assert(mod_pow(5, 0, 983) == 1);
    lemma_fundamental_div_mod_converse(1int * 1int, m, 0int, 1int);
    lemma_fundamental_div_mod_converse(1int * 5, m, 0int, 5int);
    assert(mod_pow(5, 1, 983) == 5);
    lemma_fundamental_div_mod_converse(5int * 5int, m, 0int, 25int);
    lemma_fundamental_div_mod_converse(25int * 5, m, 0int, 125int);
    assert(mod_pow(5, 3, 983) == 125);
    lemma_fundamental_div_mod_converse(125int * 125int, m, 15int, 880int);
    lemma_fundamental_div_mod_converse(880int * 5, m, 4int, 468int);
    assert(mod_pow(5, 7, 983) == 468);
    lemma_fundamental_div_mod_converse(468int * 468int, m, 222int, 798int);
    lemma_fundamental_div_mod_converse(798int * 5, m, 4int, 58int);
    assert(mod_pow(5, 15, 983) == 58);
    lemma_fundamental_div_mod_converse(58int * 58int, m, 3int, 415int);
    assert(mod_pow(5, 30, 983) == 415);
    lemma_fundamental_div_mod_converse(415int * 415int, m, 175int, 200int);
    lemma_fundamental_div_mod_converse(200int * 5, m, 1int, 17int);
    assert(mod_pow(5, 61, 983) == 17);
    lemma_fundamental_div_mod_converse(17int * 17int, m, 0int, 289int);
    assert(mod_pow(5, 122, 983) == 289);
    lemma_fundamental_div_mod_converse(289int * 289int, m, 84int, 949int);
    lemma_fundamental_div_mod_converse(949int * 5, m, 4int, 813int);
    assert(mod_pow(5, 245, 983) == 813);
    lemma_fundamental_div_mod_converse(813int * 813int, m, 672int, 393int);
    lemma_fundamental_div_mod_converse(393int * 5, m, 1int, 982int);
    assert(mod_pow(5, 491, 983) == 982);
}

pub proof fn lemma_pow_983_by_491()
    ensures
        mod_pow(5, 2, 983) == 25,
{
    let m = 983int;
    lemma_fundamental_div_mod_converse(1, m, 0, 1);
    assert(mod_pow(5, 0, 983) == 1);
    lemma_fundamental_div_mod_converse(1int * 1int, m, 0int, 1int);
    lemma_fundamental_div_mod_converse(1int * 5, m, 0int, 5int);
    assert(mod_pow(5, 1, 983) == 5);
    lemma_fundamental_div_mod_converse(5int * 5int, m, 0int, 25int);
    assert(mod_pow(5, 2, 983) == 25);
}

/// A Lucas–Pratt witness for 983: generator 5, and n - 1 = 2 * 491.
pub proof fn lemma_witness_983()
    ensures
        pratt_witness(983, 5, seq![2nat, 491nat]),
{
    lemma_prime_491();
    lemma_pow_983_full();
    lemma_pow_983_by_2();
    lemma_pow_983_by_491();
    let fs = seq![2nat, 491nat];
    assert(product(fs) == 982nat) by {
        assert(product(Seq::<nat>::empty()) == 1);
        assert(seq![491nat].len() == 1 && seq![491nat][0] == 491nat);
        assert(seq![491nat].drop_first() =~= Seq::<nat>::empty());
        assert(product(seq![491nat].drop_first()) == 1nat);
        assert(product(seq![491nat]) == seq![491nat][0] * product(seq![491nat].drop_first()));
        assert(product(seq![491nat]) == 491nat);
        assert(seq![2nat, 491nat].len() == 2 && seq![2nat, 491nat][0] == 2nat);
        assert(seq![2nat, 491nat].drop_first() =~= seq![491nat]);
        assert(product(seq![2nat, 491nat].drop_first()) == 491nat);
        assert(product(seq![2nat, 491nat]) == seq![2nat, 491nat][0] * product(seq![2nat, 491nat].drop_first()));
        assert(product(seq![2nat, 491nat]) == 982nat);
    }
    assert forall|i: int| 0 <= i < fs.len() implies mod_pow(5, ((982nat) / fs[i]) as nat, 983) != 1 && is_prime(#[trigger] fs[i]) by {
        if i == 0 {
            assert(fs[i] == 2);
            lemma_fundamental_div_mod_converse(982int, 2int, 491int, 0int);
        } else if i == 1 {
            assert(fs[i] == 491);
            lemma_fundamental_div_mod_converse(982int, 491int, 2int, 0int);
        }
    }
}

/// 983 is prime.
pub proof fn lemma_prime_983()
    ensures
        is_prime(983),
{
    lemma_witness_983();
    lemma_pratt_prime(983, 5, seq![2nat, 491nat]);
}

pub proof fn lemma_pow_1231_full()
    ensures
        mod_pow(3, 1230, 1231) == 1,
{
    let m = 1231int;
    lemma_fundamental_div_mod_converse(1, m, 0, 1);
    assert(mod_pow(3, 0, 1231) == 1);
    lemma_fundamental_div_mod_converse(1int * 1int, m, 0int, 1int);
    lemma_fundamental_div_mod_converse(1int * 3, m, 0int, 3int);
    assert(mod_pow(3, 1, 1231) == 3);
    lemma_fundamental_div_mod_converse(3int * 3int, m, 0int, 9int);
    assert(mod_pow(3, 2, 1231) == 9);
    lemma_fundamental_div_mod_converse(9int * 9int, m, 0int, 81int);
    assert(mod_pow(3, 4, 1231) == 81);
    lemma_fundamental_div_mod_converse(81int * 81int, m, 5int, 406int);
    lemma_fundamental_div_mod_converse(406int * 3, m, 0int, 1218int);
    assert(mod_pow(3, 9, 1231) == 1218);
    lemma_fundamental_div_mod_converse(1218int * 1218int, m, 1205int, 169int);
    lemma_fundamental_div_mod_converse(169int * 3, m, 0int, 507int);
    assert(mod_pow(3, 19, 1231) == 507);
    lemma_fundamental_div_mod_converse(507int * 507int, m, 208int, 1001int);
    assert(mod_pow(3, 38, 1231) == 1001);
    lemma_fundamental_div_mod_converse(1001int * 1001int, m, 813int, 1198int);
    assert(mod_pow(3, 76, 1231) == 1198);
    lemma_fundamental_div_mod_converse(1198int * 1198int, m, 1165int, 1089int);
    lemma_fundamental_div_mod_converse(1089int * 3, m, 2int, 805int);
    assert(mod_pow(3, 153, 1231) == 805);
    lemma_fundamental_div_mod_converse(805int * 805int, m, 526int, 519int);
    lemma_fundamental_div_mod_converse(519int * 3, m, 1int, 326int);
    assert(mod_pow(3, 307, 1231) == 326);
    lemma_fundamental_div_mod_converse(326int * 326int, m, 86int, 410int);
    lemma_fundamental_div_mod_converse(410int * 3, m, 0int, 1230int);
    assert(mod_pow(3, 615, 1231) == 1230);
    lemma_fundamental_div_mod_converse(1230int * 1230int, m, 1229int, 1int);
    assert(mod_pow(3, 1230, 1231) == 1);
}

pub proof fn lemma_pow_1231_by_2()
    ensures
        mod_pow(3, 615, 1231) == 1230,
{
    let m = 1231int;
    lemma_fundamental_div_mod_converse(1, m, 0, 1);
    assert(mod_pow(3, 0, 1231) == 1);
    lemma_fundamental_div_mod_converse(1int * 1int, m, 0int, 1int);
    lemma_fundamental_div_mod_converse(1int * 3, m, 0int, 3int);
    assert(mod_pow(3, 1, 1231) == 3);
    lemma_fundamental_div_mod_converse(3int * 3int, m, 0int, 9int);
    assert(mod_pow(3, 2, 1231) == 9);
    lemma_fundamental_div_mod_converse(9int * 9int, m, 0int, 81int);
    assert(mod_pow(3, 4, 1231) == 81);
    lemma_fundamental_div_mod_converse(81int * 81int, m, 5int, 406int);
    lemma_fundamental_div_mod_converse(406int * 3, m, 0int, 1218int);
    assert(mod_pow(3, 9, 1231) == 1218);
    lemma_fundamental_div_mod_converse(1218int * 1218int, m, 1205int, 169int);
    lemma_fundamental_div_mod_converse(169int * 3, m, 0int, 507int);
    assert(mod_pow(3, 19, 1231) == 507);
    lemma_fundamental_div_mod_converse(507int * 507int, m, 208int, 1001int);
    assert(mod_pow(3, 38, 1231) == 1001);
    lemma_fundamental_div_mod_converse(1001int * 1001int, m, 813int, 1198int);
    assert(mod_pow(3, 76, 1231) == 1198);
    lemma_fundamental_div_mod_converse(1198int * 1198int, m, 1165int, 1089int);
    lemma_fundamental_div_mod_converse(1089int * 3, m, 2int, 805int);
    assert(mod_pow(3, 153, 1231) == 805);
    lemma_fundamental_div_mod_converse(805int * 805int, m, 526int, 519int);
    lemma_fundamental_div_mod_converse(519int * 3, m, 1int, 326int);
    assert(mod_pow(3, 307, 1231) == 326);
    lemma_fundamental_div_mod_converse(326int * 326int, m, 86int, 410int);
    lemma_fundamental_div_mod_converse(410int * 3, m, 0int, 1230int);
    assert(mod_pow(3, 615, 1231) == 1230);
}

pub proof fn lemma_pow_1231_by_3()
    ensures
        mod_pow(3, 410, 1231) == 126,
{
    let m = 1231int;
    lemma_fundamental_div_mod_converse(1, m, 0, 1);
    assert(mod_pow(3, 0, 1231) == 1);
    lemma_fundamental_div_mod_converse(1int * 1int, m, 0int, 1int);
    lemma_fundamental_div_mod_converse(1int * 3, m, 0int, 3int);
    assert(mod_pow(3, 1, 1231) == 3);
    lemma_fundamental_div_mod_converse(3int * 3int, m, 0int, 9int);
    lemma_fundamental_div_mod_converse(9int * 3, m, 0int, 27int);
    assert(mod_pow(3, 3, 1231) == 27);
    lemma_fundamental_div_mod_converse(27int * 27int, m, 0int, 729int);
    assert(mod_pow(3, 6, 1231) == 729);
    lemma_fundamental_div_mod_converse(729int * 729int, m, 431int, 880int);
    assert(mod_pow(3, 12, 1231) == 880);
    lemma_fundamental_div_mod_converse(880int * 880int, m, 629int, 101int);
    lemma_fundamental_div_mod_converse(101int * 3, m, 0int, 303int);
    assert(mod_pow(3, 25, 1231) == 303);
    lemma_fundamental_div_mod_converse(303int * 303int, m, 74int, 715int);
    lemma_fundamental_div_mod_converse(715int * 3, m, 1int, 914int);
    assert(mod_pow(3, 51, 1231) == 914);
    lemma_fundamental_div_mod_converse(914int * 914int, m, 678int, 778int);
    assert(mod_pow(3, 102, 1231) == 778);
    lemma_fundamental_div_mod_converse(778int * 778int, m, 491int, 863int);
    lemma_fundamental_div_mod_converse(863int * 3, m, 2int, 127int);
    assert(mod_pow(3, 205, 1231) == 127);
    lemma_fundamental_div_mod_converse(127int * 127int, m, 13int, 126int);
    assert(mod_pow(3, 410, 1231) == 126);
}

pub proof fn lemma_pow_1231_by_5()
    ensures
        mod_pow(3, 246, 1231) == 401,
{
    let m = 1231int;
    lemma_fundamental_div_mod_converse(1, m, 0, 1);
    assert(mod_pow(3, 0, 1231) == 1);
    lemma_fundamental_div_mod_converse(1int * 1int, m, 0int, 1int);
    lemma_fundamental_div_mod_converse(1int * 3, m, 0int, 3int);
    assert(mod_pow(3, 1, 1231) == 3);
    lemma_fundamental_div_mod_converse(3int * 3int, m, 0int, 9int);
    lemma_fundamental_div_mod_converse(9int * 3, m, 0int, 27int);
    assert(mod_pow(3, 3, 1231) == 27);
    lemma_fundamental_div_mod_converse(27int * 27int, m, 0int, 729int);
    lemma_fundamental_div_mod_converse(729int * 3, m, 1int, 956int);
    assert(mod_pow(3, 7, 1231) == 956);
    lemma_fundamental_div_mod_converse(956int * 956int, m, 742int, 534int);
    lemma_fundamental_div_mod_converse(534int * 3, m, 1int, 371int);
    assert(mod_pow(3, 15, 1231) == 371);
    lemma_fundamental_div_mod_converse(371int * 371int, m, 111int, 1000int);
    assert(mod_pow(3, 30, 1231) == 1000);
    lemma_fundamental_div_mod_converse(1000int * 1000int, m, 812int, 428int);
    lemma_fundamental_div_mod_converse(428int * 3, m, 1int, 53int);
    assert(mod_pow(3, 61, 1231) == 53);
    lemma_fundamental_div_mod_converse(53int * 53int, m, 2int, 347int);
    lemma_fundamental_div_mod_converse(347int * 3, m, 0int, 1041int);
    assert(mod_pow(3, 123, 1231) == 1041);
    lemma_fundamental_div_mod_converse(1041int * 1041int, m, 880int, 401int);
    assert(mod_pow(3, 246, 1231) == 401);
}

pub proof fn lemma_pow_1231_by_41()
    ensures
        mod_pow(3, 30, 1231) == 1000,
{
    let m = 1231int;
    lemma_fundamental_div_mod_converse(1, m, 0, 1);
    assert(mod_pow(3, 0, 1231) == 1);
    lemma_fundamental_div_mod_converse(1int * 1int, m, 0int, 1int);
    lemma_fundamental_div_mod_converse(1int * 3, m, 0int, 3int);
    assert(mod_pow(3, 1, 1231) == 3);
    lemma_fundamental_div_mod_converse(3int * 3int, m, 0int, 9int);
    lemma_fundamental_div_mod_converse(9int * 3, m, 0int, 27int);
    assert(mod_pow(3, 3, 1231) == 27);
    lemma_fundamental_div_mod_converse(27int * 27int, m, 0int, 729int);
    lemma_fundamental_div_mod_converse(729int * 3, m, 1int, 956int);
    assert(mod_pow(3, 7, 1231) == 956);
    lemma_fundamental_div_mod_converse(956int * 956int, m, 742int, 534int);
    lemma_fundamental_div_mod_converse(534int * 3, m, 1int, 371int);
    assert(mod_pow(3, 15, 1231) == 371);
    lemma_fundamental_div_mod_converse(371int * 371int, m, 111int, 1000int);
    assert(mod_pow(3, 30, 1231) == 1000);
}

/// A Lucas–Pratt witness for 1231: generator 3, and n - 1 = 2 * 3 * 5 * 41.
pub proof fn lemma_witness_1231()
    ensures
        pratt_witness(1231, 3, seq![2nat, 3nat, 5nat, 41nat]),
{
    lemma_prime_3();
    lemma_prime_5();
    lemma_prime_41();
    lemma_pow_1231_full();
    lemma_pow_1231_by_2();
    lemma_pow_1231_by_3();
    lemma_pow_1231_by_5();
    lemma_pow_1231_by_41();
    let fs = seq![2nat, 3nat, 5nat, 41nat];
    assert(product(fs) == 1230nat) by {
        assert(product(Seq::<nat>::empty()) == 1);
        assert(seq![41nat].len() == 1 && seq![41nat][0] == 41nat);
        assert(seq![41nat].drop_first() =~= Seq::<nat>::empty());
        assert(product(seq![41nat].drop_first()) == 1nat);
        assert(product(seq![41nat]) == seq![41nat][0] * product(seq![41nat].drop_first()));
        assert(product(seq![41nat]) == 41nat);
        assert(seq![5nat, 41nat].len() == 2 && seq![5nat, 41nat][0] == 5nat);
        assert(seq![5nat, 41nat].drop_first() =~= seq![41nat]);
        assert(product(seq![5nat, 41nat].drop_first()) == 41nat);
        assert(product(seq![5nat, 41nat]) == seq![5nat, 41nat][0] * product(seq![5nat, 41nat].drop_first()));
        assert(product(seq![5nat, 41nat]) == 205nat);
        assert(seq![3nat, 5nat, 41nat].len() == 3 && seq![3nat, 5nat, 41nat][0] == 3nat);
        assert(seq![3nat, 5nat, 41nat].drop_first() =~= seq![5nat, 41nat]);
        assert(product(seq![3nat, 5nat, 41nat].drop_first()) == 205nat);
        assert(product(seq![3nat, 5nat, 41nat]) == seq![3nat, 5nat, 41nat][0] * product(seq![3nat, 5nat, 41nat].drop_first()));
        assert(product(seq![3nat, 5nat, 41nat]) == 615nat);
        assert(seq![2nat, 3nat, 5nat, 41nat].len() == 4 && seq![2nat, 3nat, 5nat, 41nat][0] == 2nat);
        assert(seq![2nat, 3nat, 5nat, 41nat].drop_first() =~= seq![3nat, 5nat, 41nat]);
        assert(product(seq![2nat, 3nat, 5nat, 41nat].drop_first()) == 615nat);
        assert(product(seq![2nat, 3nat, 5nat, 41nat]) == seq![2nat, 3nat, 5nat, 41nat][0] * product(seq![2nat, 3nat, 5nat, 41nat].drop_first()));
        assert(product(seq![2nat, 3nat, 5nat, 41nat]) == 1230nat);
    }
    assert forall|i: int| 0 <= i < fs.len() implies mod_pow(3, ((1230nat) / fs[i]) as nat, 1231) != 1 && is_prime(#[trigger] fs[i]) by {
        if i == 0 {
            assert(fs[i] == 2);
            lemma_fundamental_div_mod_converse(1230int, 2int, 615int, 0int);
        } else if i == 1 {
            assert(fs[i] == 3);
            lemma_fundamental_div_mod_converse(1230int, 3int, 410int, 0int);
        } else if i == 2 {
            assert(fs[i] == 5);
            lemma_fundamental_div_mod_converse(1230int, 5int, 246int, 0int);
        } else if i == 3 {
            assert(fs[i] == 41);
            lemma_fundamental_div_mod_converse(1230int, 41int, 30int, 0int);
        }
    }
}

/// 1231 is prime.
pub proof fn lemma_prime_1231()
    ensures
        is_prime(1231),
{
    lemma_witness_1231();
    lemma_pratt_prime(1231, 3, seq![2nat, 3nat, 5nat, 41nat]);
}

pub proof fn lemma_pow_2221_full()
    ensures
        mod_pow(2, 2220, 2221) == 1,
{
    let m = 2221int;
    lemma_fundamental_div_mod_converse(1, m, 0, 1);
    assert(mod_pow(2, 0, 2221) == 1);
    lemma_fundamental_div_mod_converse(1int * 1int, m, 0int, 1int);
    lemma_fundamental_div_mod_converse(1int * 2, m, 0int, 2int);
    assert(mod_pow(2, 1, 2221) == 2);
    lemma_fundamental_div_mod_converse(2int * 2int, m, 0int, 4int);
    assert(mod_pow(2, 2, 2221) == 4);
    lemma_fundamental_div_mod_converse(4int * 4int, m, 0int, 16int);
    assert(mod_pow(2, 4, 2221) == 16);
    lemma_fundamental_div_mod_converse(16int * 16int, m, 0int, 256int);
    assert(mod_pow(2, 8, 2221) == 256);
    lemma_fundamental_div_mod_converse(256int * 256int, m, 29int, 1127int);
    lemma_fundamental_div_mod_converse(1127int * 2, m, 1int, 33int);
    assert(mod_pow(2, 17, 2221) == 33);
    lemma_fundamental_div_mod_converse(33int * 33int, m, 0int, 1089int);
    assert(mod_pow(2, 34, 2221) == 1089);
    lemma_fundamental_div_mod_converse(1089int * 1089int, m, 533int, 2128int);
    lemma_fundamental_div_mod_converse(2128int * 2, m, 1int, 2035int);
    assert(mod_pow(2, 69, 2221) == 2035);
    lemma_fundamental_div_mod_converse(2035int * 2035int, m, 1864int, 1281int);
    assert(mod_pow(2, 138, 2221) == 1281);
    lemma_fundamental_div_mod_converse(1281int * 1281int, m, 738int, 1863int);
    lemma_fundamental_div_mod_converse(1863int * 2, m, 1int, 1505int);
    assert(mod_pow(2, 277, 2221) == 1505);
    lemma_fundamental_div_mod_converse(1505int * 1505int, m, 1019int, 1826int);
    lemma_fundamental_div_mod_converse(1826int * 2, m, 1int, 1431int);
    assert(mod_pow(2, 555, 2221) == 1431);
    lemma_fundamental_div_mod_converse(1431int * 1431int, m, 921int, 2220int);
    assert(mod_pow(2, 1110, 2221) == 2220);
    lemma_fundamental_div_mod_converse(2220int * 2220int, m, 2219int, 1int);
    assert(mod_pow(2, 2220, 2221) == 1);
}

pub proof fn lemma_pow_2221_by_2()
    ensures
        mod_pow(2, 1110, 2221) == 2220,
{
    let m = 2221int;
    lemma_fundamental_div_mod_converse(1, m, 0, 1);
    assert(mod_pow(2, 0, 2221) == 1);
    lemma_fundamental_div_mod_converse(1int * 1int, m, 0int, 1int);
    lemma_fundamental_div_mod_converse(1int * 2, m, 0int, 2int);
    assert(mod_pow(2, 1, 2221) == 2);
    lemma_fundamental_div_mod_converse(2int * 2int, m, 0int, 4int);
    assert(mod_pow(2, 2, 2221) == 4);
    lemma_fundamental_div_mod_converse(4int * 4int, m, 0int, 16int);
    assert(mod_pow(2, 4, 2221) == 16);
    lemma_fundamental_div_mod_converse(16int * 16int, m, 0int, 256int);
    assert(mod_pow(2, 8, 2221) == 256);
    lemma_fundamental_div_mod_converse(256int * 256int, m, 29int, 1127int);
    lemma_fundamental_div_mod_converse(1127int * 2, m, 1int, 33int);
    assert(mod_pow(2, 17, 2221) == 33);
    lemma_fundamental_div_mod_converse(33int * 33int, m, 0int, 1089int);
    assert(mod_pow(2, 34, 2221) == 1089);
    lemma_fundamental_div_mod_converse(1089int * 1089int, m, 533int, 2128int);
    lemma_fundamental_div_mod_converse(2128int * 2, m, 1int, 2035int);
    assert(mod_pow(2, 69, 2221) == 2035);
    lemma_fundamental_div_mod_converse(2035int * 2035int, m, 1864int, 1281int);
    assert(mod_pow(2, 138, 2221) == 1281);
    lemma_fundamental_div_mod_converse(1281int * 1281int, m, 738int, 1863int);
    lemma_fundamental_div_mod_converse(1863int * 2, m, 1int, 1505int);
    assert(mod_pow(2, 277, 2221) == 1505);
    lemma_fundamental_div_mod_converse(1505int * 1505int, m, 1019int, 1826int);
    lemma_fundamental_div_mod_converse(1826int * 2, m, 1int, 1431int);
    assert(mod_pow(2, 555, 2221) == 1431);
    lemma_fundamental_div_mod_converse(1431int * 1431int, m, 921int, 2220int);
    assert(mod_pow(2, 1110, 2221) == 2220);
}

pub proof fn lemma_pow_2221_by_3()
    ensures
        mod_pow(2, 740, 2221) == 543,
{
    let m = 2221int;
    lemma_fundamental_div_mod_converse(1, m, 0, 1);
    assert(mod_pow(2, 0, 2221) == 1);
    lemma_fundamental_div_mod_converse(1int * 1int, m, 0int, 1int);
    lemma_fundamental_div_mod_converse(1int * 2, m, 0int, 2int);
    assert(mod_pow(2, 1, 2221) == 2);
    lemma_fundamental_div_mod_converse(2int * 2int, m, 0int, 4int);
    assert(mod_pow(2, 2, 2221) == 4);
    lemma_fundamental_div_mod_converse(4int * 4int, m, 0int, 16int);
    lemma_fundamental_div_mod_converse(16int * 2, m, 0int, 32int);
    assert(mod_pow(2, 5, 2221) == 32);
    lemma_fundamental_div_mod_converse(32int * 32int, m, 0int, 1024int);
    lemma_fundamental_div_mod_converse(1024int * 2, m, 0int, 2048int);
    assert(mod_pow(2, 11, 2221) == 2048);
    lemma_fundamental_div_mod_converse(2048int * 2048int, m, 1888int, 1056int);
    lemma_fundamental_div_mod_converse(1056int * 2, m, 0int, 2112int);
    assert(mod_pow(2, 23, 2221) == 2112);
    lemma_fundamental_div_mod_converse(2112int * 2112int, m, 2008int, 776int);
    assert(mod_pow(2, 46, 2221) == 776);
    lemma_fundamental_div_mod_converse(776int * 776int, m, 271int, 285int);
    assert(mod_pow(2, 92, 2221) == 285);
    lemma_fundamental_div_mod_converse(285int * 285int, m, 36int, 1269int);
    lemma_fundamental_div_mod_converse(1269int * 2, m, 1int, 317int);
    assert(mod_pow(2, 185, 2221) == 317);
    lemma_fundamental_div_mod_converse(317int * 317int, m, 45int, 544int);
    assert(mod_pow(2, 370, 2221) == 544);
    lemma_fundamental_div_mod_converse(544int * 544int, m, 133int, 543int);
    assert(mod_pow(2, 740, 2221) == 543);
}

pub proof fn lemma_pow_2221_by_5()
    ensures
        mod_pow(2, 444, 2221) == 330,
{
    let m = 2221int;
    lemma_fundamental_div_mod_converse(1, m, 0, 1);
    assert(mod_pow(2, 0, 2221) == 1);
    lemma_fundamental_div_mod_converse(1int * 1int, m, 0int, 1int);
    lemma_fundamental_div_mod_converse(1int * 2, m, 0int, 2int);
    assert(mod_pow(2, 1, 2221) == 2);
    lemma_fundamental_div_mod_converse(2int * 2int, m, 0int, 4int);
    lemma_fundamental_div_mod_converse(4int * 2, m, 0int, 8int);
    assert(mod_pow(2, 3, 2221) == 8);
    lemma_fundamental_div_mod_converse(8int * 8int, m, 0int, 64int);
    assert(mod_pow(2, 6, 2221) == 64);
    lemma_fundamental_div_mod_converse(64int * 64int, m, 1int, 1875int);
    lemma_fundamental_div_mod_converse(1875int * 2, m, 1int, 1529int);
    assert(mod_pow(2, 13, 2221) == 1529);
    lemma_fundamental_div_mod_converse(1529int * 1529int, m, 1052int, 1349int);
    lemma_fundamental_div_mod_converse(1349int * 2, m, 1int, 477int);
    assert(mod_pow(2, 27, 2221) == 477);
    lemma_fundamental_div_mod_converse(477int * 477int, m, 102int, 987int);
    lemma_fundamental_div_mod_converse(987int * 2, m, 0int, 1974int);
    assert(mod_pow(2, 55, 2221) == 1974);
    lemma_fundamental_div_mod_converse(1974int * 1974int, m, 1754int, 1042int);
    lemma_fundamental_div_mod_converse(1042int * 2, m, 0int, 2084int);
    assert(mod_pow(2, 111, 2221) == 2084);
    lemma_fundamental_div_mod_converse(2084int * 2084int, m, 1955int, 1001int);
    assert(mod_pow(2, 222, 2221) == 1001);
    lemma_fundamental_div_mod_converse(1001int * 1001int, m, 451int, 330int);
    assert(mod_pow(2, 444, 2221) == 330);
}

pub proof fn lemma_pow_2221_by_37()
    ensures
        mod_pow(2, 60, 2221) == 980,
{
    let m = 2221int;
    lemma_fundamental_div_mod_converse(1, m, 0, 1);
    assert(mod_pow(2, 0, 2221) == 1);
    lemma_fundamental_div_mod_converse(1int * 1int, m, 0int, 1int);
    lemma_fundamental_div_mod_converse(1int * 2, m, 0int, 2int);
    assert(mod_pow(2, 1, 2221) == 2);
    lemma_fundamental_div_mod_converse(2int * 2int, m, 0int, 4int);
    lemma_fundamental_div_mod_converse(4int * 2, m, 0int, 8int);
    assert(mod_pow(2, 3, 2221) == 8);
    lemma_fundamental_div_mod_converse(8int * 8int, m, 0int, 64int);
    lemma_fundamental_div_mod_converse(64int * 2, m, 0int, 128int);
    assert(mod_pow(2, 7, 2221) == 128);
    lemma_fundamental_div_mod_converse(128int * 128int, m, 7int, 837int);
    lemma_fundamental_div_mod_converse(837int * 2, m, 0int, 1674int);
    assert(mod_pow(2, 15, 2221) == 1674);
    lemma_fundamental_div_mod_converse(1674int * 1674int, m, 1261int, 1595int);
    assert(mod_pow(2, 30, 2221) == 1595);
    lemma_fundamental_div_mod_converse(1595int * 1595int, m, 1145int, 980int);
    assert(mod_pow(2, 60, 2221) == 980);
}

/// A Lucas–Pratt witness for 2221: generator 2, and n - 1 = 2^2 * 3 * 5 * 37.
pub proof fn lemma_witness_2221()
    ensures
        pratt_witness(2221, 2, seq![2nat, 2nat, 3nat, 5nat, 37nat]),
{
    lemma_prime_3();
    lemma_prime_5();
    lemma_prime_37();
    lemma_pow_2221_full();
    lemma_pow_2221_by_2();
    lemma_pow_2221_by_3();
    lemma_pow_2221_by_5();
    lemma_pow_2221_by_37();
    let fs = seq![2nat, 2nat, 3nat, 5nat, 37nat];
    assert(product(fs) == 2220nat) by {
        assert(product(Seq::<nat>::empty()) == 1);
        assert(seq![37nat].len() == 1 && seq![37nat][0] == 37nat);
        assert(seq![37nat].drop_first() =~= Seq::<nat>::empty());
        assert(product(seq![37nat].drop_first()) == 1nat);
        assert(product(seq![37nat]) == seq![37nat][0] * product(seq![37nat].drop_first()));
        assert(product(seq![37nat]) == 37nat);
        assert(seq![5nat, 37nat].len() == 2 && seq![5nat, 37nat][0] == 5nat);
        assert(seq![5nat, 37nat].drop_first() =~= seq![37nat]);
        assert(product(seq![5nat, 37nat].drop_first()) == 37nat);
        assert(product(seq![5nat, 37nat]) == seq![5nat, 37nat][0] * product(seq![5nat, 37nat].drop_first()));
        assert(product(seq![5nat, 37nat]) == 185nat);
        assert(seq![3nat, 5nat, 37nat].len() == 3 && seq![3nat, 5nat, 37nat][0] == 3nat);
        assert(seq![3nat, 5nat, 37nat].drop_first() =~= seq![5nat, 37nat]);
        assert(product(seq![3nat, 5nat, 37nat].drop_first()) == 185nat);
        assert(product(seq![3nat, 5nat, 37nat]) == seq![3nat, 5nat, 37nat][0] * product(seq![3nat, 5nat, 37nat].drop_first()));
        assert(product(seq![3nat, 5nat, 37nat]) == 555nat);
        assert(seq![2nat, 3nat, 5nat, 37nat].len() == 4 && seq![2nat, 3nat, 5nat, 37nat][0] == 2nat);
        assert(seq![2nat, 3nat, 5nat, 37nat].drop_first() =~= seq![3nat, 5nat, 37nat]);
        assert(product(seq![2nat, 3nat, 5nat, 37nat].drop_first()) == 555nat);
        assert(product(seq![2nat, 3nat, 5nat, 37nat]) == seq![2nat, 3nat, 5nat, 37nat][0] * product(seq![2nat, 3nat, 5nat, 37nat].drop_first()));
        assert(product(seq![2nat, 3nat, 5nat, 37nat]) == 1110nat);
        assert(seq![2nat, 2nat, 3nat, 5nat, 37nat].len() == 5 && seq![2nat, 2nat, 3nat, 5nat, 37nat][0] == 2nat);
        assert(seq![2nat, 2nat, 3nat, 5nat, 37nat].drop_first() =~= seq![2nat, 3nat, 5nat, 37nat]);
        assert(product(seq![2nat, 2nat, 3nat, 5nat, 37nat].drop_first()) == 1110nat);
        assert(product(seq![2nat, 2nat, 3nat, 5nat, 37nat]) == seq![2nat, 2nat, 3nat, 5nat, 37nat][0] * product(seq![2nat, 2nat, 3nat, 5nat, 37nat].drop_first()));
        assert(product(seq![2nat, 2nat, 3nat, 5nat, 37nat]) == 2220nat);
    }
    assert forall|i: int| 0 <= i < fs.len() implies mod_pow(2, ((2220nat) / fs[i]) as nat, 2221) != 1 && is_prime(#[trigger] fs[i]) by {
        if i == 0 {
            assert(fs[i] == 2);
            lemma_fundamental_div_mod_converse(2220int, 2int, 1110int, 0int);
        } else if i == 1 {
            assert(fs[i] == 2);
            lemma_fundamental_div_mod_converse(2220int, 2int, 1110int, 0int);
        } else if i == 2 {
            assert(fs[i] == 3);
            lemma_fundamental_div_mod_converse(2220int, 3int, 740int, 0int);
        } else if i == 3 {
            assert(fs[i] == 5);
            lemma_fundamental_div_mod_converse(2220int, 5int, 444int, 0int);
        } else if i == 4 {
            assert(fs[i] == 37);
            lemma_fundamental_div_mod_converse(2220int, 37int, 60int, 0int);
        }
    }
}

/// 2221 is prime.
pub proof fn lemma_prime_2221()
    ensures
        is_prime(2221),
{
    lemma_witness_2221();
    lemma_pratt_prime(2221, 2, seq![2nat, 2nat, 3nat, 5nat, 37nat]);
}

pub proof fn lemma_pow_3557_full()
    ensures
        mod_pow(2, 3556, 3557) == 1,
{
    let m = 3557int;
    lemma_fundamental_div_mod_converse(1, m, 0, 1);
    assert(mod_pow(2, 0, 3557) == 1);
    lemma_fundamental_div_mod_converse(1int * 1int, m, 0int, 1int);
    lemma_fundamental_div_mod_converse(1int * 2, m, 0int, 2int);
    assert(mod_pow(2, 1, 3557) == 2);
    lemma_fundamental_div_mod_converse(2int * 2int, m, 0int, 4int);
    lemma_fundamental_div_mod_converse(4int * 2, m, 0int, 8int);
    assert(mod_pow(2, 3, 3557) == 8);
    lemma_fundamental_div_mod_converse(8int * 8int, m, 0int, 64int);
    assert(mod_pow(2, 6, 3557) == 64);
    lemma_fundamental_div_mod_converse(64int * 64int, m, 1int, 539int);
    lemma_fundamental_div_mod_converse(539int * 2, m, 0int, 1078int);
    assert(mod_pow(2, 13, 3557) == 1078);
    lemma_fundamental_div_mod_converse(1078int * 1078int, m, 326int, 2502int);
    lemma_fundamental_div_mod_converse(2502int * 2, m, 1int, 1447int);
    assert(mod_pow(2, 27, 3557) == 1447);
    lemma_fundamental_div_mod_converse(1447int * 1447int, m, 588int, 2293int);
    lemma_fundamental_div_mod_converse(2293int * 2, m, 1int, 1029int);
    assert(mod_pow(2, 55, 3557) == 1029);
    lemma_fundamental_div_mod_converse(1029int * 1029int, m, 297int, 2412int);
    lemma_fundamental_div_mod_converse(2412int * 2, m, 1int, 1267int);
    assert(mod_pow(2, 111, 3557) == 1267);
    lemma_fundamental_div_mod_converse(1267int * 1267int, m, 451int, 1082int);
    assert(mod_pow(2, 222, 3557) == 1082);
    lemma_fundamental_div_mod_converse(1082int * 1082int, m, 329int, 471int);
    assert(mod_pow(2, 444, 3557) == 471);
    lemma_fundamental_div_mod_converse(471int * 471int, m, 62int, 1307int);
    lemma_fundamental_div_mod_converse(1307int * 2, m, 0int, 2614int);
    assert(mod_pow(2, 889, 3557) == 2614);
    lemma_fundamental_div_mod_converse(2614int * 2614int, m, 1920int, 3556int);
    assert(mod_pow(2, 1778, 3557) == 3556);
    lemma_fundamental_div_mod_converse(3556int * 3556int, m, 3555int, 1int);
    assert(mod_pow(2, 3556, 3557) == 1);
}

pub proof fn lemma_pow_3557_by_2()
    ensures
        mod_pow(2, 1778, 3557) == 3556,
{
    let m = 3557int;
    lemma_fundamental_div_mod_converse(1, m, 0, 1);
    assert(mod_pow(2, 0, 3557) == 1);
    lemma_fundamental_div_mod_converse(1int * 1int, m, 0int, 1int);
    lemma_fundamental_div_mod_converse(1int * 2, m, 0int, 2int);
    assert(mod_pow(2, 1, 3557) == 2);
    lemma_fundamental_div_mod_converse(2int * 2int, m, 0int, 4int);
    lemma_fundamental_div_mod_converse(4int * 2, m, 0int, 8int);
    assert(mod_pow(2, 3, 3557) == 8);
    lemma_fundamental_div_mod_converse(8int * 8int, m, 0int, 64int);
    assert(mod_pow(2, 6, 3557) == 64);
    lemma_fundamental_div_mod_converse(64int * 64int, m, 1int, 539int);
    lemma_fundamental_div_mod_converse(539int * 2, m, 0int, 1078int);
    assert(mod_pow(2, 13, 3557) == 1078);
    lemma_fundamental_div_mod_converse(1078int * 1078int, m, 326int, 2502int);
    lemma_fundamental_div_mod_converse(2502int * 2, m, 1int, 1447int);
    assert(mod_pow(2, 27, 3557) == 1447);
    lemma_fundamental_div_mod_converse(1447int * 1447int, m, 588int, 2293int);
    lemma_fundamental_div_mod_converse(2293int * 2, m, 1int, 1029int);
    assert(mod_pow(2, 55, 3557) == 1029);
    lemma_fundamental_div_mod_converse(1029int * 1029int, m, 297int, 2412int);
    lemma_fundamental_div_mod_converse(2412int * 2, m, 1int, 1267int);
    assert(mod_pow(2, 111, 3557) == 1267);
    lemma_fundamental_div_mod_converse(1267int * 1267int, m, 451int, 1082int);
    assert(mod_pow(2, 222, 3557) == 1082);
    lemma_fundamental_div_mod_converse(1082int * 1082int, m, 329int, 471int);
    assert(mod_pow(2, 444, 3557) == 471);
    lemma_fundamental_div_mod_converse(471int * 471int, m, 62int, 1307int);
    lemma_fundamental_div_mod_converse(1307int * 2, m, 0int, 2614int);
    assert(mod_pow(2, 889, 3557) == 2614);
    lemma_fundamental_div_mod_converse(2614int * 2614int, m, 1920int, 3556int);
    assert(mod_pow(2, 1778, 3557) == 3556);
}

pub proof fn lemma_pow_3557_by_7()
    ensures
        mod_pow(2, 508, 3557) == 1974,
{
    let m = 3557int;
    lemma_fundamental_div_mod_converse(1, m, 0, 1);
    assert(mod_pow(2, 0, 3557) == 1);
    lemma_fundamental_div_mod_converse(1int * 1int, m, 0int, 1int);
    lemma_fundamental_div_mod_converse(1int * 2, m, 0int, 2int);
    assert(mod_pow(2, 1, 3557) == 2);
    lemma_fundamental_div_mod_converse(2int * 2int, m, 0int, 4int);
    lemma_fundamental_div_mod_converse(4int * 2, m, 0int, 8int);
    assert(mod_pow(2, 3, 3557) == 8);
    lemma_fundamental_div_mod_converse(8int * 8int, m, 0int, 64int);
    lemma_fundamental_div_mod_converse(64int * 2, m, 0int, 128int);
    assert(mod_pow(2, 7, 3557) == 128);
    lemma_fundamental_div_mod_converse(128int * 128int, m, 4int, 2156int);
    lemma_fundamental_div_mod_converse(2156int * 2, m, 1int, 755int);
    assert(mod_pow(2, 15, 3557) == 755);
    lemma_fundamental_div_mod_converse(755int * 755int, m, 160int, 905int);
    lemma_fundamental_div_mod_converse(905int * 2, m, 0int, 1810int);
    assert(mod_pow(2, 31, 3557) == 1810);
    lemma_fundamental_div_mod_converse(1810int * 1810int, m, 921int, 103int);
    lemma_fundamental_div_mod_converse(103int * 2, m, 0int, 206int);
    assert(mod_pow(2, 63, 3557) == 206);
    lemma_fundamental_div_mod_converse(206int * 206int, m, 11int, 3309int);
    lemma_fundamental_div_mod_converse(3309int * 2, m, 1int, 3061int);
    assert(mod_pow(2, 127, 3557) == 3061);
    lemma_fundamental_div_mod_converse(3061int * 3061int, m, 2634int, 583int);
    assert(mod_pow(2, 254, 3557) == 583);
    lemma_fundamental_div_mod_converse(583int * 583int, m, 95int, 1974int);
    assert(mod_pow(2, 508, 3557) == 1974);
}

pub proof fn lemma_pow_3557_by_127()
    ensures
        mod_pow(2, 28, 3557) == 2894,
{
    let m = 3557int;
    lemma_fundamental_div_mod_converse(1, m, 0, 1);
    assert(mod_pow(2, 0, 3557) == 1);
    lemma_fundamental_div_mod_converse(1int * 1int, m, 0int, 1int);
    lemma_fundamental_div_mod_converse(1int * 2, m, 0int, 2int);
    assert(mod_pow(2, 1, 3557) == 2);
    lemma_fundamental_div_mod_converse(2int * 2int, m, 0int, 4int);
    lemma_fundamental_div_mod_converse(4int * 2, m, 0int, 8int);
    assert(mod_pow(2, 3, 3557) == 8);
    lemma_fundamental_div_mod_converse(8int * 8int, m, 0int, 64int);
    lemma_fundamental_div_mod_converse(64int * 2, m, 0int, 128int);
    assert(mod_pow(2, 7, 3557) == 128);
    lemma_fundamental_div_mod_converse(128int * 128int, m, 4int, 2156int);
    assert(mod_pow(2, 14, 3557) == 2156);
    lemma_fundamental_div_mod_converse(2156int * 2156int, m, 1306int, 2894int);
    assert(mod_pow(2, 28, 3557) == 2894);
}

/// A Lucas–Pratt witness for 3557: generator 2, and n - 1 = 2^2 * 7 * 127.
pub proof fn lemma_witness_3557()
    ensures
        pratt_witness(3557, 2, seq![2nat, 2nat, 7nat, 127nat]),
{
    lemma_prime_7();
    lemma_prime_127();
    lemma_pow_3557_full();
    lemma_pow_3557_by_2();
    lemma_pow_3557_by_7();
    lemma_pow_3557_by_127();
    let fs = seq![2nat, 2nat, 7nat, 127nat];
    assert(product(fs) == 3556nat) by {
        assert(product(Seq::<nat>::empty()) == 1);
        assert(seq![127nat].len() == 1 && seq![127nat][0] == 127nat);
        assert(seq![127nat].drop_first() =~= Seq::<nat>::empty());
        assert(product(seq![127nat].drop_first()) == 1nat);
        assert(product(seq![127nat]) == seq![127nat][0] * product(seq![127nat].drop_first()));
        assert(product(seq![127nat]) == 127nat);
        assert(seq![7nat, 127nat].len() == 2 && seq![7nat, 127nat][0] == 7nat);
        assert(seq![7nat, 127nat].drop_first() =~= seq![127nat]);
        assert(product(seq![7nat, 127nat].drop_first()) == 127nat);
        assert(product(seq![7nat, 127nat]) == seq![7nat, 127nat][0] * product(seq![7nat, 127nat].drop_first()));
        assert(product(seq![7nat, 127nat]) == 889nat);
        assert(seq![2nat, 7nat, 127nat].len() == 3 && seq![2nat, 7nat, 127nat][0] == 2nat);
        assert(seq![2nat, 7nat, 127nat].drop_first() =~= seq![7nat, 127nat]);
        assert(product(seq![2nat, 7nat, 127nat].drop_first()) == 889nat);
        assert(product(seq![2nat, 7nat, 127nat]) == seq![2nat, 7nat, 127nat][0] * product(seq![2nat, 7nat, 127nat].drop_first()));
        assert(product(seq![2nat, 7nat, 127nat]) == 1778nat);
        assert(seq![2nat, 2nat, 7nat, 127nat].len() == 4 && seq![2nat, 2nat, 7nat, 127nat][0] == 2nat);
        assert(seq![2nat, 2nat, 7nat, 127nat].drop_first() =~= seq![2nat, 7nat, 127nat]);
        assert(product(seq![2nat, 2nat, 7nat, 127nat].drop_first()) == 1778nat);
        assert(product(seq![2nat, 2nat, 7nat, 127nat]) == seq![2nat, 2nat, 7nat, 127nat][0] * product(seq![2nat, 2nat, 7nat, 127nat].drop_first()));
        assert(product(seq![2nat, 2nat, 7nat, 127nat]) == 3556nat);
    }
    assert forall|i: int| 0 <= i < fs.len() implies mod_pow(2, ((3556nat) / fs[i]) as nat, 3557) != 1 && is_prime(#[trigger] fs[i]) by {
        if i == 0 {
            assert(fs[i] == 2);
            lemma_fundamental_div_mod_converse(3556int, 2int, 1778int, 0int);
        } else if i == 1 {
            assert(fs[i] == 2);
            lemma_fundamental_div_mod_converse(3556int, 2int, 1778int, 0int);
        } else if i == 2 {
            assert(fs[i] == 7);
            lemma_fundamental_div_mod_converse(3556int, 7int, 508int, 0int);
        } else if i == 3 {
            assert(fs[i] == 127);
            lemma_fundamental_div_mod_converse(3556int, 127int, 28int, 0int);
        }
    }
}

/// 3557 is prime.
pub proof fn lemma_prime_3557()
    ensures
        is_prime(3557),
{
    lemma_witness_3557();
    lemma_pratt_prime(3557, 2, seq![2nat, 2nat, 7nat, 127nat]);
}

pub proof fn lemma_pow_3691_full()
    ensures
        mod_pow(2, 3690, 3691) == 1,
{
    let m = 3691int;
    lemma_fundamental_div_mod_converse(1, m, 0, 1);
    assert(mod_pow(2, 0, 3691) == 1);
    lemma_fundamental_div_mod_converse(1int * 1int, m, 0int, 1int);
    lemma_fundamental_div_mod_converse(1int * 2, m, 0int, 2int);
    assert(mod_pow(2, 1, 3691) == 2);
    lemma_fundamental_div_mod_converse(2int * 2int, m, 0int, 4int);
    lemma_fundamental_div_mod_converse(4int * 2, m, 0int, 8int);
    assert(mod_pow(2, 3, 3691) == 8);
    lemma_fundamental_div_mod_converse(8int * 8int, m, 0int, 64int);
    lemma_fundamental_div_mod_converse(64int * 2, m, 0int, 128int);
    assert(mod_pow(2, 7, 3691) == 128);
    lemma_fundamental_div_mod_converse(128int * 128int, m, 4int, 1620int);
    assert(mod_pow(2, 14, 3691) == 1620);
    lemma_fundamental_div_mod_converse(1620int * 1620int, m, 711int, 99int);
    assert(mod_pow(2, 28, 3691) == 99);
    lemma_fundamental_div_mod_converse(99int * 99int, m, 2int, 2419int);
    lemma_fundamental_div_mod_converse(2419int * 2, m, 1int, 1147int);
    assert(mod_pow(2, 57, 3691) == 1147);
    lemma_fundamental_div_mod_converse(1147int * 1147int, m, 356int, 1613int);
    lemma_fundamental_div_mod_converse(1613int * 2, m, 0int, 3226int);
    assert(mod_pow(2, 115, 3691) == 3226);
    lemma_fundamental_div_mod_converse(3226int * 3226int, m, 2819int, 2147int);
    assert(mod_pow(2, 230, 3691) == 2147);
    lemma_fundamental_div_mod_converse(2147int * 2147int, m, 1248int, 3241int);
    lemma_fundamental_div_mod_converse(3241int * 2, m, 1int, 2791int);
    assert(mod_pow(2, 461, 3691) == 2791);
    lemma_fundamental_div_mod_converse(2791int * 2791int, m, 2110int, 1671int);
    assert(mod_pow(2, 922, 3691) == 1671);
    lemma_fundamental_div_mod_converse(1671int * 1671int, m, 756int, 1845int);
    lemma_fundamental_div_mod_converse(1845int * 2, m, 0int, 3690int);
    assert(mod_pow(2, 1845, 3691) == 3690);
    lemma_fundamental_div_mod_converse(3690int * 3690int, m, 3689int, 1int);
    assert(mod_pow(2, 3690, 3691) == 1);
}

pub proof fn lemma_pow_3691_by_2()
    ensures
        mod_pow(2, 1845, 3691) == 3690,
{
    let m = 3691int;
    lemma_fundamental_div_mod_converse(1, m, 0, 1);
    assert(mod_pow(2, 0, 3691) == 1);
    lemma_fundamental_div_mod_converse(1int * 1int, m, 0int, 1int);
    lemma_fundamental_div_mod_converse(1int * 2, m, 0int, 2int);
    assert(mod_pow(2, 1, 3691) == 2);
    lemma_fundamental_div_mod_converse(2int * 2int, m, 0int, 4int);
    lemma_fundamental_div_mod_converse(4int * 2, m, 0int, 8int);
    assert(mod_pow(2, 3, 3691) == 8);
    lemma_fundamental_div_mod_converse(8int * 8int, m, 0int, 64int);
    lemma_fundamental_div_mod_converse(64int * 2, m, 0int, 128int);
    assert(mod_pow(2, 7, 3691) == 128);
    lemma_fundamental_div_mod_converse(128int * 128int, m, 4int, 1620int);
    assert(mod_pow(2, 14, 3691) == 1620);
    lemma_fundamental_div_mod_converse(1620int * 1620int, m, 711int, 99int);
    assert(mod_pow(2, 28, 3691) == 99);
    lemma_fundamental_div_mod_converse(99int * 99int, m, 2int, 2419int);
    lemma_fundamental_div_mod_converse(2419int * 2, m, 1int, 1147int);
    assert(mod_pow(2, 57, 3691) == 1147);
    lemma_fundamental_div_mod_converse(1147int * 1147int, m, 356int, 1613int);
    lemma_fundamental_div_mod_converse(1613int * 2, m, 0int, 3226int);
    assert(mod_pow(2, 115, 3691) == 3226);
    lemma_fundamental_div_mod_converse(3226int * 3226int, m, 2819int, 2147int);
    assert(mod_pow(2, 230, 3691) == 2147);
    lemma_fundamental_div_mod_converse(2147int * 2147int, m, 1248int, 3241int);
    lemma_fundamental_div_mod_converse(3241int * 2, m, 1int, 2791int);
    assert(mod_pow(2, 461, 3691) == 2791);
    lemma_fundamental_div_mod_converse(2791int * 2791int, m, 2110int, 1671int);
    assert(mod_pow(2, 922, 3691) == 1671);
    lemma_fundamental_div_mod_converse(1671int * 1671int, m, 756int, 1845int);
    lemma_fundamental_div_mod_converse(1845int * 2, m, 0int, 3690int);
    assert(mod_pow(2, 1845, 3691) == 3690);
}

pub proof fn lemma_pow_3691_by_3()
    ensures
        mod_pow(2, 1230, 3691) == 3216,
{
    let m = 3691int;
    lemma_fundamental_div_mod_converse(1, m, 0, 1);
    assert(mod_pow(2, 0, 3691) == 1);
    lemma_fundamental_div_mod_converse(1int * 1int, m, 0int, 1int);
    lemma_fundamental_div_mod_converse(1int * 2, m, 0int, 2int);
    assert(mod_pow(2, 1, 3691) == 2);
    lemma_fundamental_div_mod_converse(2int * 2int, m, 0int, 4int);
    assert(mod_pow(2, 2, 3691) == 4);
    lemma_fundamental_div_mod_converse(4int * 4int, m, 0int, 16int);
    assert(mod_pow(2, 4, 3691) == 16);
    lemma_fundamental_div_mod_converse(16int * 16int, m, 0int, 256int);
    lemma_fundamental_div_mod_converse(256int * 2, m, 0int, 512int);
    assert(mod_pow(2, 9, 3691) == 512);
    lemma_fundamental_div_mod_converse(512int * 512int, m, 71int, 83int);
    lemma_fundamental_div_mod_converse(83int * 2, m, 0int, 166int);
    assert(mod_pow(2, 19, 3691) == 166);
    lemma_fundamental_div_mod_converse(166int * 166int, m, 7int, 1719int);
    assert(mod_pow(2, 38, 3691) == 1719);
    lemma_fundamental_div_mod_converse(1719int * 1719int, m, 800int, 2161int);
    assert(mod_pow(2, 76, 3691) == 2161);
    lemma_fundamental_div_mod_converse(2161int * 2161int, m, 1265int, 806int);
    lemma_fundamental_div_mod_converse(806int * 2, m, 0int, 1612int);
    assert(mod_pow(2, 153, 3691) == 1612);
    lemma_fundamental_div_mod_converse(1612int * 1612int, m, 704int, 80int);
    lemma_fundamental_div_mod_converse(80int * 2, m, 0int, 160int);
    assert(mod_pow(2, 307, 3691) == 160);
    lemma_fundamental_div_mod_converse(160int * 160int, m, 6int, 3454int);
    lemma_fundamental_div_mod_converse(3454int * 2, m, 1int, 3217int);
    assert(mod_pow(2, 615, 3691) == 3217);
    lemma_fundamental_div_mod_converse(3217int * 3217int, m, 2803int, 3216int);
    assert(mod_pow(2, 1230, 3691) == 3216);
}

pub proof fn lemma_pow_3691_by_5()
    ensures
        mod_pow(2, 738, 3691) == 643,
{
    let m = 3691int;
    lemma_fundamental_div_mod_converse(1, m, 0, 1);
    assert(mod_pow(2, 0, 3691) == 1);
    lemma_fundamental_div_mod_converse(1int * 1int, m, 0int, 1int);
    lemma_fundamental_div_mod_converse(1int * 2, m, 0int, 2int);
    assert(mod_pow(2, 1, 3691) == 2);
    lemma_fundamental_div_mod_converse(2int * 2int, m, 0int, 4int);
    assert(mod_pow(2, 2, 3691) == 4);
    lemma_fundamental_div_mod_converse(4int * 4int, m, 0int, 16int);
    lemma_fundamental_div_mod_converse(16int * 2, m, 0int, 32int);
    assert(mod_pow(2, 5, 3691) == 32);
    lemma_fundamental_div_mod_converse(32int * 32int, m, 0int, 1024int);
    lemma_fundamental_div_mod_converse(1024int * 2, m, 0int, 2048int);
    assert(mod_pow(2, 11, 3691) == 2048);
    lemma_fundamental_div_mod_converse(2048int * 2048int, m, 1136int, 1328int);
    lemma_fundamental_div_mod_converse(1328int * 2, m, 0int, 2656int);
    assert(mod_pow(2, 23, 3691) == 2656);
    lemma_fundamental_div_mod_converse(2656int * 2656int, m, 1911int, 835int);
    assert(mod_pow(2, 46, 3691) == 835);
    lemma_fundamental_div_mod_converse(835int * 835int, m, 188int, 3317int);
    assert(mod_pow(2, 92, 3691) == 3317);
    lemma_fundamental_div_mod_converse(3317int * 3317int, m, 2980int, 3309int);
    assert(mod_pow(2, 184, 3691) == 3309);
    lemma_fundamental_div_mod_converse(3309int * 3309int, m, 2966int, 1975int);
    lemma_fundamental_div_mod_converse(1975int * 2, m, 1int, 259int);
    assert(mod_pow(2, 369, 3691) == 259);
    lemma_fundamental_div_mod_converse(259int * 259int, m, 18int, 643int);
    assert(mod_pow(2, 738, 3691) == 643);
}

pub proof fn lemma_pow_3691_by_41()
    ensures
        mod_pow(2, 90, 3691) == 1752,
{
    let m = 3691int;
    lemma_fundamental_div_mod_converse(1, m, 0, 1);
    assert(mod_pow(2, 0, 3691) == 1);
    lemma_fundamental_div_mod_converse(1int * 1int, m, 0int, 1int);
    lemma_fundamental_div_mod_converse(1int * 2, m, 0int, 2int);
    assert(mod_pow(2, 1, 3691) == 2);
    lemma_fundamental_div_mod_converse(2int * 2int, m, 0int, 4int);
    assert(mod_pow(2, 2, 3691) == 4);
    lemma_fundamental_div_mod_converse(4int * 4int, m, 0int, 16int);
    lemma_fundamental_div_mod_converse(16int * 2, m, 0int, 32int);
    assert(mod_pow(2, 5, 3691) == 32);
    lemma_fundamental_div_mod_converse(32int * 32int, m, 0int, 1024int);
    lemma_fundamental_div_mod_converse(1024int * 2, m, 0int, 2048int);
    assert(mod_pow(2, 11, 3691) == 2048);
    lemma_fundamental_div_mod_converse(2048int * 2048int, m, 1136int, 1328int);
    assert(mod_pow(2, 22, 3691) == 1328);
    lemma_fundamental_div_mod_converse(1328int * 1328int, m, 477int, 2977int);
    lemma_fundamental_div_mod_converse(2977int * 2, m, 1int, 2263int);
    assert(mod_pow(2, 45, 3691) == 2263);
    lemma_fundamental_div_mod_converse(2263int * 2263int, m, 1387int, 1752int);
    assert(mod_pow(2, 90, 3691) == 1752);
}

/// A Lucas–Pratt witness for 3691: generator 2, and n - 1 = 2 * 3^2 * 5 * 41.
pub proof fn lemma_witness_3691()
    ensures
        pratt_witness(3691, 2, seq![2nat, 3nat, 3nat, 5nat, 41nat]),
{
    lemma_prime_3();
    lemma_prime_5();
    lemma_prime_41();
    lemma_pow_3691_full();
    lemma_pow_3691_by_2();
    lemma_pow_3691_by_3();
    lemma_pow_3691_by_5();
    lemma_pow_3691_by_41();
    let fs = seq![2nat, 3nat, 3nat, 5nat, 41nat];
    assert(product(fs) == 3690nat) by {
        assert(product(Seq::<nat>::empty()) == 1);
        assert(seq![41nat].len() == 1 && seq![41nat][0] == 41nat);
        assert(seq![41nat].drop_first() =~= Seq::<nat>::empty());
        assert(product(seq![41nat].drop_first()) == 1nat);
        assert(product(seq![41nat]) == seq![41nat][0] * product(seq![41nat].drop_first()));
        assert(product(seq![41nat]) == 41nat);
        assert(seq![5nat, 41nat].len() == 2 && seq![5nat, 41nat][0] == 5nat);
        assert(seq![5nat, 41nat].drop_first() =~= seq![41nat]);
        assert(product(seq![5nat, 41nat].drop_first()) == 41nat);
        assert(product(seq![5nat, 41nat]) == seq![5nat, 41nat][0] * product(seq![5nat, 41nat].drop_first()));
        assert(product(seq![5nat, 41nat]) == 205nat);
        assert(seq![3nat, 5nat, 41nat].len() == 3 && seq![3nat, 5nat, 41nat][0] == 3nat);
        assert(seq![3nat, 5nat, 41nat].drop_first() =~= seq![5nat, 41nat]);
        assert(product(seq![3nat, 5nat, 41nat].drop_first()) == 205nat);
        assert(product(seq![3nat, 5nat, 41nat]) == seq![3nat, 5nat, 41nat][0] * product(seq![3nat, 5nat, 41nat].drop_first()));
        assert(product(seq![3nat, 5nat, 41nat]) == 615nat);
        assert(seq![3nat, 3nat, 5nat, 41nat].len() == 4 && seq![3nat, 3nat, 5nat, 41nat][0] == 3nat);
        assert(seq![3nat, 3nat, 5nat, 41nat].drop_first() =~= seq![3nat, 5nat, 41nat]);
        assert(product(seq![3nat, 3nat, 5nat, 41nat].drop_first()) == 615nat);
        assert(product(seq![3nat, 3nat, 5nat, 41nat]) == seq![3nat, 3nat, 5nat, 41nat][0] * product(seq![3nat, 3nat, 5nat, 41nat].drop_first()));
        assert(product(seq![3nat, 3nat, 5nat, 41nat]) == 1845nat);
        assert(seq![2nat, 3nat, 3nat, 5nat, 41nat].len() == 5 && seq![2nat, 3nat, 3nat, 5nat, 41nat][0] == 2nat);
        assert(seq![2nat, 3nat, 3nat, 5nat, 41nat].drop_first() =~= seq![3nat, 3nat, 5nat, 41nat]);
        assert(product(seq![2nat, 3nat, 3nat, 5nat, 41nat].drop_first()) == 1845nat);
        assert(product(seq![2nat, 3nat, 3nat, 5nat, 41nat]) == seq![2nat, 3nat, 3nat, 5nat, 41nat][0] * product(seq![2nat, 3nat, 3nat, 5nat, 41nat].drop_first()));
        assert(product(seq![2nat, 3nat, 3nat, 5nat, 41nat]) == 3690nat);
    }
    assert forall|i: int| 0 <= i < fs.len() implies mod_pow(2, ((3690nat) / fs[i]) as nat, 3691) != 1 && is_prime(#[trigger] fs[i]) by {
        if i == 0 {
            assert(fs[i] == 2);
            lemma_fundamental_div_mod_converse(3690int, 2int, 1845int, 0int);
        } else if i == 1 {
            assert(fs[i] == 3);
            lemma_fundamental_div_mod_converse(3690int, 3int, 1230int, 0int);
        } else if i == 2 {
            assert(fs[i] == 3);
            lemma_fundamental_div_mod_converse(3690int, 3int, 1230int, 0int);
        } else if i == 3 {
            assert(fs[i] == 5);
            lemma_fundamental_div_mod_converse(3690int, 5int, 738int, 0int);
        } else if i == 4 {
            assert(fs[i] == 41);
            lemma_fundamental_div_mod_converse(3690int, 41int, 90int, 0int);
        }
    }
}

/// 3691 is prime.
pub proof fn lemma_prime_3691()
    ensures
        is_prime(3691),
{
    lemma_witness_3691();
    lemma_pratt_prime(3691, 2, seq![2nat, 3nat, 3nat, 5nat, 41nat]);
}

pub proof fn lemma_pow_4999_full()
    ensures
        mod_pow(3, 4998, 4999) == 1,
{
    let m = 4999int;
    lemma_fundamental_div_mod_converse(1, m, 0, 1);
    assert(mod_pow(3, 0, 4999) == 1);
    lemma_fundamental_div_mod_converse(1int * 1int, m, 0int, 1int);
    lemma_fundamental_div_mod_converse(1int * 3, m, 0int, 3int);
    assert(mod_pow(3, 1, 4999) == 3);
    lemma_fundamental_div_mod_converse(3int * 3int, m, 0int, 9int);
    assert(mod_pow(3, 2, 4999) == 9);
    lemma_fundamental_div_mod_converse(9int * 9int, m, 0int, 81int);
    assert(mod_pow(3, 4, 4999) == 81);
    lemma_fundamental_div_mod_converse(81int * 81int, m, 1int, 1562int);
    lemma_fundamental_div_mod_converse(1562int * 3, m, 0int, 4686int);
    assert(mod_pow(3, 9, 4999) == 4686);
    lemma_fundamental_div_mod_converse(4686int * 4686int, m, 4392int, 2988int);
    lemma_fundamental_div_mod_converse(2988int * 3, m, 1int, 3965int);
    assert(mod_pow(3, 19, 4999) == 3965);
    lemma_fundamental_div_mod_converse(3965int * 3965int, m, 3144int, 4369int);
    lemma_fundamental_div_mod_converse(4369int * 3, m, 2int, 3109int);
    assert(mod_pow(3, 39, 4999) == 3109);
    lemma_fundamental_div_mod_converse(3109int * 3109int, m, 1933int, 2814int);
    assert(mod_pow(3, 78, 4999) == 2814);
    lemma_fundamental_div_mod_converse(2814int * 2814int, m, 1584int, 180int);
    assert(mod_pow(3, 156, 4999) == 180);
    lemma_fundamental_div_mod_converse(180int * 180int, m, 6int, 2406int);
    assert(mod_pow(3, 312, 4999) == 2406);
    lemma_fundamental_div_mod_converse(2406int * 2406int, m, 1157int, 4993int);
    assert(mod_pow(3, 624, 4999) == 4993);
    lemma_fundamental_div_mod_converse(4993int * 4993int, m, 4987int, 36int);
    lemma_fundamental_div_mod_converse(36int * 3, m, 0int, 108int);
    assert(mod_pow(3, 1249, 4999) == 108);
    lemma_fundamental_div_mod_converse(108int * 108int, m, 2int, 1666int);
    lemma_fundamental_div_mod_converse(1666int * 3, m, 0int, 4998int);
    assert(mod_pow(3, 2499, 4999) == 4998);
    lemma_fundamental_div_mod_converse(4998int * 4998int, m, 4997int, 1int);
    assert(mod_pow(3, 4998, 4999) == 1);
}

pub proof fn lemma_pow_4999_by_2()
    ensures
        mod_pow(3, 2499, 4999) == 4998,
{
    let m = 4999int;
    lemma_fundamental_div_mod_converse(1, m, 0, 1);
    assert(mod_pow(3, 0, 4999) == 1);
    lemma_fundamental_div_mod_converse(1int * 1int, m, 0int, 1int);
    lemma_fundamental_div_mod_converse(1int * 3, m, 0int, 3int);
    assert(mod_pow(3, 1, 4999) == 3);
    lemma_fundamental_div_mod_converse(3int * 3int, m, 0int, 9int);
    assert(mod_pow(3, 2, 4999) == 9);
    lemma_fundamental_div_mod_converse(9int * 9int, m, 0int, 81int);
    assert(mod_pow(3, 4, 4999) == 81);
    lemma_fundamental_div_mod_converse(81int * 81int, m, 1int, 1562int);
    lemma_fundamental_div_mod_converse(1562int * 3, m, 0int, 4686int);
    assert(mod_pow(3, 9, 4999) == 4686);
    lemma_fundamental_div_mod_converse(4686int * 4686int, m, 4392int, 2988int);
    lemma_fundamental_div_mod_converse(2988int * 3, m, 1int, 3965int);
    assert(mod_pow(3, 19, 4999) == 3965);
    lemma_fundamental_div_mod_converse(3965int * 3965int, m, 3144int, 4369int);
    lemma_fundamental_div_mod_converse(4369int * 3, m, 2int, 3109int);
    assert(mod_pow(3, 39, 4999) == 3109);
    lemma_fundamental_div_mod_converse(3109int * 3109int, m, 1933int, 2814int);
    assert(mod_pow(3, 78, 4999) == 2814);
    lemma_fundamental_div_mod_converse(2814int * 2814int, m, 1584int, 180int);
    assert(mod_pow(3, 156, 4999) == 180);
    lemma_fundamental_div_mod_converse(180int * 180int, m, 6int, 2406int);
    assert(mod_pow(3, 312, 4999) == 2406);
    lemma_fundamental_div_mod_converse(2406int * 2406int, m, 1157int, 4993int);
    assert(mod_pow(3, 624, 4999) == 4993);
    lemma_fundamental_div_mod_converse(4993int * 4993int, m, 4987int, 36int);
    lemma_fundamental_div_mod_converse(36int * 3, m, 0int, 108int);
    assert(mod_pow(3, 1249, 4999) == 108);
    lemma_fundamental_div_mod_converse(108int * 108int, m, 2int, 1666int);
    lemma_fundamental_div_mod_converse(1666int * 3, m, 0int, 4998int);
    assert(mod_pow(3, 2499, 4999) == 4998);
}

pub proof fn lemma_pow_4999_by_3()
    ensures
        mod_pow(3, 1666, 4999) == 2661,
{
    let m = 4999int;
    lemma_fundamental_div_mod_converse(1, m, 0, 1);
    assert(mod_pow(3, 0, 4999) == 1);
    lemma_fundamental_div_mod_converse(1int * 1int, m, 0int, 1int);
    lemma_fundamental_div_mod_converse(1int * 3, m, 0int, 3int);
    assert(mod_pow(3, 1, 4999) == 3);
    lemma_fundamental_div_mod_converse(3int * 3int, m, 0int, 9int);
    lemma_fundamental_div_mod_converse(9int * 3, m, 0int, 27int);
    assert(mod_pow(3, 3, 4999) == 27);
    lemma_fundamental_div_mod_converse(27int * 27int, m, 0int, 729int);
    assert(mod_pow(3, 6, 4999) == 729);
    lemma_fundamental_div_mod_converse(729int * 729int, m, 106int, 1547int);
    lemma_fundamental_div_mod_converse(1547int * 3, m, 0int, 4641int);
    assert(mod_pow(3, 13, 4999) == 4641);
    lemma_fundamental_div_mod_converse(4641int * 4641int, m, 4308int, 3189int);
    assert(mod_pow(3, 26, 4999) == 3189);
    lemma_fundamental_div_mod_converse(3189int * 3189int, m, 2034int, 1755int);
    assert(mod_pow(3, 52, 4999) == 1755);
    lemma_fundamental_div_mod_converse(1755int * 1755int, m, 616int, 641int);
    assert(mod_pow(3, 104, 4999) == 641);
    lemma_fundamental_div_mod_converse(641int * 641int, m, 82int, 963int);
    assert(mod_pow(3, 208, 4999) == 963);
    lemma_fundamental_div_mod_converse(963int * 963int, m, 185int, 2554int);
    assert(mod_pow(3, 416, 4999) == 2554);
    lemma_fundamental_div_mod_converse(2554int * 2554int, m, 1304int, 4220int);
    lemma_fundamental_div_mod_converse(4220int * 3, m, 2int, 2662int);
    assert(mod_pow(3, 833, 4999) == 2662);
    lemma_fundamental_div_mod_converse(2662int * 2662int, m, 1417int, 2661int);
    assert(mod_pow(3, 1666, 4999) == 2661);
}

pub proof fn lemma_pow_4999_by_7()
    ensures
        mod_pow(3, 714, 4999) == 227,
{
    let m = 4999int;
    lemma_fundamental_div_mod_converse(1, m, 0, 1);
    assert(mod_pow(3, 0, 4999) == 1);
    lemma_fundamental_div_mod_converse(1int * 1int, m, 0int, 1int);
    lemma_fundamental_div_mod_converse(1int * 3, m, 0int, 3int);
    assert(mod_pow(3, 1, 4999) == 3);
    lemma_fundamental_div_mod_converse(3int * 3int, m, 0int, 9int);
    assert(mod_pow(3, 2, 4999) == 9);
    lemma_fundamental_div_mod_converse(9int * 9int, m, 0int, 81int);
    lemma_fundamental_div_mod_converse(81int * 3, m, 0int, 243int);
    assert(mod_pow(3, 5, 4999) == 243);
    lemma_fundamental_div_mod_converse(243int * 243int, m, 11int, 4060int);
    lemma_fundamental_div_mod_converse(4060int * 3, m, 2int, 2182int);
    assert(mod_pow(3, 11, 4999) == 2182);
    lemma_fundamental_div_mod_converse(2182int * 2182int, m, 952int, 2076int);
    assert(mod_pow(3, 22, 4999) == 2076);
    lemma_fundamental_div_mod_converse(2076int * 2076int, m, 862int, 638int);
    assert(mod_pow(3, 44, 4999) == 638);
    lemma_fundamental_div_mod_converse(638int * 638int, m, 81int, 2125int);
    lemma_fundamental_div_mod_converse(2125int * 3, m, 1int, 1376int);
    assert(mod_pow(3, 89, 4999) == 1376);
    lemma_fundamental_div_mod_converse(1376int * 1376int, m, 378int, 3754int);
    assert(mod_pow(3, 178, 4999) == 3754);
    lemma_fundamental_div_mod_converse(3754int * 3754int, m, 2819int, 335int);
    lemma_fundamental_div_mod_converse(335int * 3, m, 0int, 1005int);
    assert(mod_pow(3, 357, 4999) == 1005);
    lemma_fundamental_div_mod_converse(1005int * 1005int, m, 202int, 227int);
    assert(mod_pow(3, 714, 4999) == 227);
}

pub proof fn lemma_pow_4999_by_17()
    ensures
        mod_pow(3, 294, 4999) == 2420,
{
    let m = 4999int;
    lemma_fundamental_div_mod_converse(1, m, 0, 1);
    assert(mod_pow(3, 0, 4999) == 1);
    lemma_fundamental_div_mod_converse(1int * 1int, m, 0int, 1int);
    lemma_fundamental_div_mod_converse(1int * 3, m, 0int, 3int);
    assert(mod_pow(3, 1, 4999) == 3);
    lemma_fundamental_div_mod_converse(3int * 3int, m, 0int, 9int);
    assert(mod_pow(3, 2, 4999) == 9);
    lemma_fundamental_div_mod_converse(9int * 9int, m, 0int, 81int);
    assert(mod_pow(3, 4, 4999) == 81);
    lemma_fundamental_div_mod_converse(81int * 81int, m, 1int, 1562int);
    lemma_fundamental_div_mod_converse(1562int * 3, m, 0int, 4686int);
    assert(mod_pow(3, 9, 4999) == 4686);
    lemma_fundamental_div_mod_converse(4686int * 4686int, m, 4392int, 2988int);
    assert(mod_pow(3, 18, 4999) == 2988);
    lemma_fundamental_div_mod_converse(2988int * 2988int, m, 1785int, 4929int);
    assert(mod_pow(3, 36, 4999) == 4929);
    lemma_fundamental_div_mod_converse(4929int * 4929int, m, 4859int, 4900int);
    lemma_fundamental_div_mod_converse(4900int * 3, m, 2int, 4702int);
    assert(mod_pow(3, 73, 4999) == 4702);
    lemma_fundamental_div_mod_converse(4702int * 4702int, m, 4422int, 3226int);
    lemma_fundamental_div_mod_converse(3226int * 3, m, 1int, 4679int);
    assert(mod_pow(3, 147, 4999) == 4679);
    lemma_fundamental_div_mod_converse(4679int * 4679int, m, 4379int, 2420int);
    assert(mod_pow(3, 294, 4999) == 2420);
}

/// A Lucas–Pratt witness for 4999: generator 3, and n - 1 = 2 * 3 * 7^2 * 17.
pub proof fn lemma_witness_4999()
    ensures
        pratt_witness(4999, 3, seq![2nat, 3nat, 7nat, 7nat, 17nat]),
{
    lemma_prime_3();
    lemma_prime_7();
    lemma_prime_17();
    lemma_pow_4999_full();
    lemma_pow_4999_by_2();
    lemma_pow_4999_by_3();
    lemma_pow_4999_by_7();
    lemma_pow_4999_by_17();
    let fs = seq![2nat, 3nat, 7nat, 7nat, 17nat];
    assert(product(fs) == 4998nat) by {
        assert(product(Seq::<nat>::empty()) == 1);
        assert(seq![17nat].len() == 1 && seq![17nat][0] == 17nat);
        assert(seq![17nat].drop_first() =~= Seq::<nat>::empty());
        assert(product(seq![17nat].drop_first()) == 1nat);
        assert(product(seq![17nat]) == seq![17nat][0] * product(seq![17nat].drop_first()));
        assert(product(seq![17nat]) == 17nat);
        assert(seq![7nat, 17nat].len() == 2 && seq![7nat, 17nat][0] == 7nat);
        assert(seq![7nat, 17nat].drop_first() =~= seq![17nat]);
        assert(product(seq![7nat, 17nat].drop_first()) == 17nat);
        assert(product(seq![7nat, 17nat]) == seq![7nat, 17nat][0] * product(seq![7nat, 17nat].drop_first()));
        assert(product(seq![7nat, 17nat]) == 119nat);
        assert(seq![7nat, 7nat, 17nat].len() == 3 && seq![7nat, 7nat, 17nat][0] == 7nat);
        assert(seq![7nat, 7nat, 17nat].drop_first() =~= seq![7nat, 17nat]);
        assert(product(seq![7nat, 7nat, 17nat].drop_first()) == 119nat);
        assert(product(seq![7nat, 7nat, 17nat]) == seq![7nat, 7nat, 17nat][0] * product(seq![7nat, 7nat, 17nat].drop_first()));
        assert(product(seq![7nat, 7nat, 17nat]) == 833nat);
        assert(seq![3nat, 7nat, 7nat, 17nat].len() == 4 && seq![3nat, 7nat, 7nat, 17nat][0] == 3nat);
        assert(seq![3nat, 7nat, 7nat, 17nat].drop_first() =~= seq![7nat, 7nat, 17nat]);
        assert(product(seq![3nat, 7nat, 7nat, 17nat].drop_first()) == 833nat);
        assert(product(seq![3nat, 7nat, 7nat, 17nat]) == seq![3nat, 7nat, 7nat, 17nat][0] * product(seq![3nat, 7nat, 7nat, 17nat].drop_first()));
        assert(product(seq![3nat, 7nat, 7nat, 17nat]) == 2499nat);
        assert(seq![2nat, 3nat, 7nat, 7nat, 17nat].len() == 5 && seq![2nat, 3nat, 7nat, 7nat, 17nat][0] == 2nat);
        assert(seq![2nat, 3nat, 7nat, 7nat, 17nat].drop_first() =~= seq![3nat, 7nat, 7nat, 17nat]);
        assert(product(seq![2nat, 3nat, 7nat, 7nat, 17nat].drop_first()) == 2499nat);
        assert(product(seq![2nat, 3nat, 7nat, 7nat, 17nat]) == seq![2nat, 3nat, 7nat, 7nat, 17nat][0] * product(seq![2nat, 3nat, 7nat, 7nat, 17nat].drop_first()));
        assert(product(seq![2nat, 3nat, 7nat, 7nat, 17nat]) == 4998nat);
    }
    assert forall|i: int| 0 <= i < fs.len() implies mod_pow(3, ((4998nat) / fs[i]) as nat, 4999) != 1 && is_prime(#[trigger] fs[i]) by {
        if i == 0 {
            assert(fs[i] == 2);
            lemma_fundamental_div_mod_converse(4998int, 2int, 2499int, 0int);
        } else if i == 1 {
            assert(fs[i] == 3);
            lemma_fundamental_div_mod_converse(4998int, 3int, 1666int, 0int);
        } else if i == 2 {
            assert(fs[i] == 7);
            lemma_fundamental_div_mod_converse(4998int, 7int, 714int, 0int);
        } else if i == 3 {
            assert(fs[i] == 7);
            lemma_fundamental_div_mod_converse(4998int, 7int, 714int, 0int);
        } else if i == 4 {
            assert(fs[i] == 17);
            lemma_fundamental_div_mod_converse(4998int, 17int, 294int, 0int);
        }
    }
}

/// 4999 is prime.
pub proof fn lemma_prime_4999()
    ensures
        is_prime(4999),
{
    lemma_witness_4999();
    lemma_pratt_prime(4999, 3, seq![2nat, 3nat, 7nat, 7nat, 17nat]);
}

pub proof fn lemma_pow_5501_full()
    ensures
        mod_pow(2, 5500, 5501) == 1,
{
    let m = 5501int;
    lemma_fundamental_div_mod_converse(1, m, 0, 1);
    assert(mod_pow(2, 0, 5501) == 1);
    lemma_fundamental_div_mod_converse(1int * 1int, m, 0int, 1int);
    lemma_fundamental_div_mod_converse(1int * 2, m, 0int, 2int);
    assert(mod_pow(2, 1, 5501) == 2);
    lemma_fundamental_div_mod_converse(2int * 2int, m, 0int, 4int);
    assert(mod_pow(2, 2, 5501) == 4);
    lemma_fundamental_div_mod_converse(4int * 4int, m, 0int, 16int);
    lemma_fundamental_div_mod_converse(16int * 2, m, 0int, 32int);
    assert(mod_pow(2, 5, 5501) == 32);
    lemma_fundamental_div_mod_converse(32int * 32int, m, 0int, 1024int);
    assert(mod_pow(2, 10, 5501) == 1024);
    lemma_fundamental_div_mod_converse(1024int * 1024int, m, 190int, 3386int);
    lemma_fundamental_div_mod_converse(3386int * 2, m, 1int, 1271int);
    assert(mod_pow(2, 21, 5501) == 1271);
    lemma_fundamental_div_mod_converse(1271int * 1271int, m, 293int, 3648int);
    assert(mod_pow(2, 42, 5501) == 3648);
    lemma_fundamental_div_mod_converse(3648int * 3648int, m, 2419int, 985int);
    lemma_fundamental_div_mod_converse(985int * 2, m, 0int, 1970int);
    assert(mod_pow(2, 85, 5501) == 1970);
    lemma_fundamental_div_mod_converse(1970int * 1970int, m, 705int, 2695int);
    lemma_fundamental_div_mod_converse(2695int * 2, m, 0int, 5390int);
    assert(mod_pow(2, 171, 5501) == 5390);
    lemma_fundamental_div_mod_converse(5390int * 5390int, m, 5281int, 1319int);
    lemma_fundamental_div_mod_converse(1319int * 2, m, 0int, 2638int);
    assert(mod_pow(2, 343, 5501) == 2638);
    lemma_fundamental_div_mod_converse(2638int * 2638int, m, 1265int, 279int);
    lemma_fundamental_div_mod_converse(279int * 2, m, 0int, 558int);
    assert(mod_pow(2, 687, 5501) == 558);
    lemma_fundamental_div_mod_converse(558int * 558int, m, 56int, 3308int);
    lemma_fundamental_div_mod_converse(3308int * 2, m, 1int, 1115int);
    assert(mod_pow(2, 1375, 5501) == 1115);
    lemma_fundamental_div_mod_converse(1115int * 1115int, m, 225int, 5500int);
    assert(mod_pow(2, 2750, 5501) == 5500);
    lemma_fundamental_div_mod_converse(5500int * 5500int, m, 5499int, 1int);
    assert(mod_pow(2, 5500, 5501) == 1);
}

pub proof fn lemma_pow_5501_by_2()
    ensures
        mod_pow(2, 2750, 5501) == 5500,
{
    let m = 5501int;
    lemma_fundamental_div_mod_converse(1, m, 0, 1);
    assert(mod_pow(2, 0, 5501) == 1);
    lemma_fundamental_div_mod_converse(1int * 1int, m, 0int, 1int);
    lemma_fundamental_div_mod_converse(1int * 2, m, 0int, 2int);
    assert(mod_pow(2, 1, 5501) == 2);
    lemma_fundamental_div_mod_converse(2int * 2int, m, 0int, 4int);
    assert(mod_pow(2, 2, 5501) == 4);
    lemma_fundamental_div_mod_converse(4int * 4int, m, 0int, 16int);
    lemma_fundamental_div_mod_converse(16int * 2, m, 0int, 32int);
    assert(mod_pow(2, 5, 5501) == 32);
    lemma_fundamental_div_mod_converse(32int * 32int, m, 0int, 1024int);
    assert(mod_pow(2, 10, 5501) == 1024);
    lemma_fundamental_div_mod_converse(1024int * 1024int, m, 190int, 3386int);
    lemma_fundamental_div_mod_converse(3386int * 2, m, 1int, 1271int);
    assert(mod_pow(2, 21, 5501) == 1271);
    lemma_fundamental_div_mod_converse(1271int * 1271int, m, 293int, 3648int);
    assert(mod_pow(2, 42, 5501) == 3648);
    lemma_fundamental_div_mod_converse(3648int * 3648int, m, 2419int, 985int);
    lemma_fundamental_div_mod_converse(985int * 2, m, 0int, 1970int);
    assert(mod_pow(2, 85, 5501) == 1970);
    lemma_fundamental_div_mod_converse(1970int * 1970int, m, 705int, 2695int);
    lemma_fundamental_div_mod_converse(2695int * 2, m, 0int, 5390int);
    assert(mod_pow(2, 171, 5501) == 5390);
    lemma_fundamental_div_mod_converse(5390int * 5390int, m, 5281int, 1319int);
    lemma_fundamental_div_mod_converse(1319int * 2, m, 0int, 2638int);
    assert(mod_pow(2, 343, 5501) == 2638);
    lemma_fundamental_div_mod_converse(2638int * 2638int, m, 1265int, 279int);
    lemma_fundamental_div_mod_converse(279int * 2, m, 0int, 558int);
    assert(mod_pow(2, 687, 5501) == 558);
    lemma_fundamental_div_mod_converse(558int * 558int, m, 56int, 3308int);
    lemma_fundamental_div_mod_converse(3308int * 2, m, 1int, 1115int);
    assert(mod_pow(2, 1375, 5501) == 1115);
    lemma_fundamental_div_mod_converse(1115int * 1115int, m, 225int, 5500int);
    assert(mod_pow(2, 2750, 5501) == 5500);
}

pub proof fn lemma_pow_5501_by_5()
    ensures
        mod_pow(2, 1100, 5501) == 3901,
{
    let m = 5501int;
    lemma_fundamental_div_mod_converse(1, m, 0, 1);
    assert(mod_pow(2, 0, 5501) == 1);
    lemma_fundamental_div_mod_converse(1int * 1int, m, 0int, 1int);
    lemma_fundamental_div_mod_converse(1int * 2, m, 0int, 2int);
    assert(mod_pow(2, 1, 5501) == 2);
    lemma_fundamental_div_mod_converse(2int * 2int, m, 0int, 4int);
    assert(mod_pow(2, 2, 5501) == 4);
    lemma_fundamental_div_mod_converse(4int * 4int, m, 0int, 16int);
    assert(mod_pow(2, 4, 5501) == 16);
    lemma_fundamental_div_mod_converse(16int * 16int, m, 0int, 256int);
    assert(mod_pow(2, 8, 5501) == 256);
    lemma_fundamental_div_mod_converse(256int * 256int, m, 11int, 5025int);
    lemma_fundamental_div_mod_converse(5025int * 2, m, 1int, 4549int);
    assert(mod_pow(2, 17, 5501) == 4549);
    lemma_fundamental_div_mod_converse(4549int * 4549int, m, 3761int, 4140int);
    assert(mod_pow(2, 34, 5501) == 4140);
    lemma_fundamental_div_mod_converse(4140int * 4140int, m, 3115int, 3985int);
    assert(mod_pow(2, 68, 5501) == 3985);
    lemma_fundamental_div_mod_converse(3985int * 3985int, m, 2886int, 4339int);
    lemma_fundamental_div_mod_converse(4339int * 2, m, 1int, 3177int);
    assert(mod_pow(2, 137, 5501) == 3177);
    lemma_fundamental_div_mod_converse(3177int * 3177int, m, 1834int, 4495int);
    lemma_fundamental_div_mod_converse(4495int * 2, m, 1int, 3489int);
    assert(mod_pow(2, 275, 5501) == 3489);
    lemma_fundamental_div_mod_converse(3489int * 3489int, m, 2212int, 4909int);
    assert(mod_pow(2, 550, 5501) == 4909);
    lemma_fundamental_div_mod_converse(4909int * 4909int, m, 4380int, 3901int);
    assert(mod_pow(2, 1100, 5501) == 3901);
}

pub proof fn lemma_pow_5501_by_11()
    ensures
        mod_pow(2, 500, 5501) == 4772,
{
    let m = 5501int;
    lemma_fundamental_div_mod_converse(1, m, 0, 1);
    assert(mod_pow(2, 0, 5501) == 1);
    lemma_fundamental_div_mod_converse(1int * 1int, m, 0int, 1int);
    lemma_fundamental_div_mod_converse(1int * 2, m, 0int, 2int);
    assert(mod_pow(2, 1, 5501) == 2);
    lemma_fundamental_div_mod_converse(2int * 2int, m, 0int, 4int);
    lemma_fundamental_div_mod_converse(4int * 2, m, 0int, 8int);
    assert(mod_pow(2, 3, 5501) == 8);
    lemma_fundamental_div_mod_converse(8int * 8int, m, 0int, 64int);
    lemma_fundamental_div_mod_converse(64int * 2, m, 0int, 128int);
    assert(mod_pow(2, 7, 5501) == 128);
    lemma_fundamental_div_mod_converse(128int * 128int, m, 2int, 5382int);
    lemma_fundamental_div_mod_converse(5382int * 2, m, 1int, 5263int);
    assert(mod_pow(2, 15, 5501) == 5263);
    lemma_fundamental_div_mod_converse(5263int * 5263int, m, 5035int, 1634int);
    lemma_fundamental_div_mod_converse(1634int * 2, m, 0int, 3268int);
    assert(mod_pow(2, 31, 5501) == 3268);
    lemma_fundamental_div_mod_converse(3268int * 3268int, m, 1941int, 2383int);
    assert(mod_pow(2, 62, 5501) == 2383);
    lemma_fundamental_div_mod_converse(2383int * 2383int, m, 1032int, 1657int);
    lemma_fundamental_div_mod_converse(1657int * 2, m, 0int, 3314int);
    assert(mod_pow(2, 125, 5501) == 3314);
    lemma_fundamental_div_mod_converse(3314int * 3314int, m, 1996int, 2600int);
    assert(mod_pow(2, 250, 5501) == 2600);
    lemma_fundamental_div_mod_converse(2600int * 2600int, m, 1228int, 4772int);
    assert(mod_pow(2, 500, 5501) == 4772);
}

/// A Lucas–Pratt witness for 5501: generator 2, and n - 1 = 2^2 * 5^3 * 11.
pub proof fn lemma_witness_5501()
    ensures
        pratt_witness(5501, 2, seq![2nat, 2nat, 5nat, 5nat, 5nat, 11nat]),
{
    lemma_prime_5();
    lemma_prime_11();
    lemma_pow_5501_full();
    lemma_pow_5501_by_2();
    lemma_pow_5501_by_5();
    lemma_pow_5501_by_11();
    let fs = seq![2nat, 2nat, 5nat, 5nat, 5nat, 11nat];
    assert(product(fs) == 5500nat) by {
        assert(product(Seq::<nat>::empty()) == 1);
        assert(seq![11nat].len() == 1 && seq![11nat][0] == 11nat);
        assert(seq![11nat].drop_first() =~= Seq::<nat>::empty());
        assert(product(seq![11nat].drop_first()) == 1nat);
        assert(product(seq![11nat]) == seq![11nat][0] * product(seq![11nat].drop_first()));
        assert(product(seq![11nat]) == 11nat);
        assert(seq![5nat, 11nat].len() == 2 && seq![5nat, 11nat][0] == 5nat);
        assert(seq![5nat, 11nat].drop_first() =~= seq![11nat]);
        assert(product(seq![5nat, 11nat].drop_first()) == 11nat);
        assert(product(seq![5nat, 11nat]) == seq![5nat, 11nat][0] * product(seq![5nat, 11nat].drop_first()));
        assert(product(seq![5nat, 11nat]) == 55nat);
        assert(seq![5nat, 5nat, 11nat].len() == 3 && seq![5nat, 5nat, 11nat][0] == 5nat);
        assert(seq![5nat, 5nat, 11nat].drop_first() =~= seq![5nat, 11nat]);
        assert(product(seq![5nat, 5nat, 11nat].drop_first()) == 55nat);
        assert(product(seq![5nat, 5nat, 11nat]) == seq![5nat, 5nat, 11nat][0] * product(seq![5nat, 5nat, 11nat].drop_first()));
        assert(product(seq![5nat, 5nat, 11nat]) == 275nat);
        assert(seq![5nat, 5nat, 5nat, 11nat].len() == 4 && seq![5nat, 5nat, 5nat, 11nat][0] == 5nat);
        assert(seq![5nat, 5nat, 5nat, 11nat].drop_first() =~= seq![5nat, 5nat, 11nat]);
        assert(product(seq![5nat, 5nat, 5nat, 11nat].drop_first()) == 275nat);
        assert(product(seq![5nat, 5nat, 5nat, 11nat]) == seq![5nat, 5nat, 5nat, 11nat][0] * product(seq![5nat, 5nat, 5nat, 11nat].drop_first()));
        assert(product(seq![5nat, 5nat, 5nat, 11nat]) == 1375nat);
        assert(seq![2nat, 5nat, 5nat, 5nat, 11nat].len() == 5 && seq![2nat, 5nat, 5nat, 5nat, 11nat][0] == 2nat);
        assert(seq![2nat, 5nat, 5nat, 5nat, 11nat].drop_first() =~= seq![5nat, 5nat, 5nat, 11nat]);
        assert(product(seq![2nat, 5nat, 5nat, 5nat, 11nat].drop_first()) == 1375nat);
        assert(product(seq![2nat, 5nat, 5nat, 5nat, 11nat]) == seq![2nat, 5nat, 5nat, 5nat, 11nat][0] * product(seq![2nat, 5nat, 5nat, 5nat, 11nat].drop_first()));
        assert(product(seq![2nat, 5nat, 5nat, 5nat, 11nat]) == 2750nat);
        assert(seq![2nat, 2nat, 5nat, 5nat, 5nat, 11nat].len() == 6 && seq![2nat, 2nat, 5nat, 5nat, 5nat, 11nat][0] == 2nat);
        assert(seq![2nat, 2nat, 5nat, 5nat, 5nat, 11nat].drop_first() =~= seq![2nat, 5nat, 5nat, 5nat, 11nat]);
        assert(product(seq![2nat, 2nat, 5nat, 5nat, 5nat, 11nat].drop_first()) == 2750nat);
        assert(product(seq![2nat, 2nat, 5nat, 5nat, 5nat, 11nat]) == seq![2nat, 2nat, 5nat, 5nat, 5nat, 11nat][0] * product(seq![2nat, 2nat, 5nat, 5nat, 5nat, 11nat].drop_first()));
        assert(product(seq![2nat, 2nat, 5nat, 5nat, 5nat, 11nat]) == 5500nat);
    }
    assert forall|i: int| 0 <= i < fs.len() implies mod_pow(2, ((5500nat) / fs[i]) as nat, 5501) != 1 && is_prime(#[trigger] fs[i]) by {
        if i == 0 {
            assert(fs[i] == 2);
            lemma_fundamental_div_mod_converse(5500int, 2int, 2750int, 0int);
        } else if i == 1 {
            assert(fs[i] == 2);
            lemma_fundamental_div_mod_converse(5500int, 2int, 2750int, 0int);
        } else if i == 2 {
            assert(fs[i] == 5);
            lemma_fundamental_div_mod_converse(5500int, 5int, 1100int, 0int);
        } else if i == 3 {
            assert(fs[i] == 5);
            lemma_fundamental_div_mod_converse(5500int, 5int, 1100int, 0int);
        } else if i == 4 {
            assert(fs[i] == 5);
            lemma_fundamental_div_mod_converse(5500int, 5int, 1100int, 0int);
        } else if i == 5 {
            assert(fs[i] == 11);
            lemma_fundamental_div_mod_converse(5500int, 11int, 500int, 0int);
        }
    }
}

/// 5501 is prime.
pub proof fn lemma_prime_5501()
    ensures
        is_prime(5501),
{
    lemma_witness_5501();
    lemma_pratt_prime(5501, 2, seq![2nat, 2nat, 5nat, 5nat, 5nat, 11nat]);
}

pub proof fn lemma_pow_11003_full()
    ensures
        mod_pow(2, 11002, 11003) == 1,
{
    let m = 11003int;
    lemma_fundamental_div_mod_converse(1, m, 0, 1);
    assert(mod_pow(2, 0, 11003) == 1);
    lemma_fundamental_div_mod_converse(1int * 1int, m, 0int, 1int);
    lemma_fundamental_div_mod_converse(1int * 2, m, 0int, 2int);
    assert(mod_pow(2, 1, 11003) == 2);
    lemma_fundamental_div_mod_converse(2int * 2int, m, 0int, 4int);
    assert(mod_pow(2, 2, 11003) == 4);
    lemma_fundamental_div_mod_converse(4int * 4int, m, 0int, 16int);
    lemma_fundamental_div_mod_converse(16int * 2, m, 0int, 32int);
    assert(mod_pow(2, 5, 11003) == 32);
    lemma_fundamental_div_mod_converse(32int * 32int, m, 0int, 1024int);
    assert(mod_pow(2, 10, 11003) == 1024);
    lemma_fundamental_div_mod_converse(1024int * 1024int, m, 95int, 3291int);
    lemma_fundamental_div_mod_converse(3291int * 2, m, 0int, 6582int);
    assert(mod_pow(2, 21, 11003) == 6582);
    lemma_fundamental_div_mod_converse(6582int * 6582int, m, 3937int, 3913int);
    assert(mod_pow(2, 42, 11003) == 3913);
    lemma_fundamental_div_mod_converse(3913int * 3913int, m, 1391int, 6396int);
    lemma_fundamental_div_mod_converse(6396int * 2, m, 1int, 1789int);
    assert(mod_pow(2, 85, 11003) == 1789);
    lemma_fundamental_div_mod_converse(1789int * 1789int, m, 290int, 9651int);
    lemma_fundamental_div_mod_converse(9651int * 2, m, 1int, 8299int);
    assert(mod_pow(2, 171, 11003) == 8299);
    lemma_fundamental_div_mod_converse(8299int * 8299int, m, 6259int, 5624int);
    lemma_fundamental_div_mod_converse(5624int * 2, m, 1int, 245int);
    assert(mod_pow(2, 343, 11003) == 245);
    lemma_fundamental_div_mod_converse(245int * 245int, m, 5int, 5010int);
    lemma_fundamental_div_mod_converse(5010int * 2, m, 0int, 10020int);
    assert(mod_pow(2, 687, 11003) == 10020);
    lemma_fundamental_div_mod_converse(10020int * 10020int, m, 9124int, 9028int);
    lemma_fundamental_div_mod_converse(9028int * 2, m, 1int, 7053int);
    assert(mod_pow(2, 1375, 11003) == 7053);
    lemma_fundamental_div_mod_converse(7053int * 7053int, m, 4521int, 246int);
    assert(mod_pow(2, 2750, 11003) == 246);
    lemma_fundamental_div_mod_converse(246int * 246int, m, 5int, 5501int);
    lemma_fundamental_div_mod_converse(5501int * 2, m, 0int, 11002int);
    assert(mod_pow(2, 5501, 11003) == 11002);
    lemma_fundamental_div_mod_converse(11002int * 11002int, m, 11001int, 1int);
    assert(mod_pow(2, 11002, 11003) == 1);
}

pub proof fn lemma_pow_11003_by_2()
    ensures
        mod_pow(2, 5501, 11003) == 11002,
{
    let m = 11003int;
    lemma_fundamental_div_mod_converse(1, m, 0, 1);
    assert(mod_pow(2, 0, 11003) == 1);
    lemma_fundamental_div_mod_converse(1int * 1int, m, 0int, 1int);
    lemma_fundamental_div_mod_converse(1int * 2, m, 0int, 2int);
    assert(mod_pow(2, 1, 11003) == 2);
    lemma_fundamental_div_mod_converse(2int * 2int, m, 0int, 4int);
    assert(mod_pow(2, 2, 11003) == 4);
    lemma_fundamental_div_mod_converse(4int * 4int, m, 0int, 16int);
    lemma_fundamental_div_mod_converse(16int * 2, m, 0int, 32int);
    assert(mod_pow(2, 5, 11003) == 32);
    lemma_fundamental_div_mod_converse(32int * 32int, m, 0int, 1024int);
    assert(mod_pow(2, 10, 11003) == 1024);
    lemma_fundamental_div_mod_converse(1024int * 1024int, m, 95int, 3291int);
    lemma_fundamental_div_mod_converse(3291int * 2, m, 0int, 6582int);
    assert(mod_pow(2, 21, 11003) == 6582);
    lemma_fundamental_div_mod_converse(6582int * 6582int, m, 3937int, 3913int);
    assert(mod_pow(2, 42, 11003) == 3913);
    lemma_fundamental_div_mod_converse(3913int * 3913int, m, 1391int, 6396int);
    lemma_fundamental_div_mod_converse(6396int * 2, m, 1int, 1789int);
    assert(mod_pow(2, 85, 11003) == 1789);
    lemma_fundamental_div_mod_converse(1789int * 1789int, m, 290int, 9651int);
    lemma_fundamental_div_mod_converse(9651int * 2, m, 1int, 8299int);
    assert(mod_pow(2, 171, 11003) == 8299);
    lemma_fundamental_div_mod_converse(8299int * 8299int, m, 6259int, 5624int);
    lemma_fundamental_div_mod_converse(5624int * 2, m, 1int, 245int);
    assert(mod_pow(2, 343, 11003) == 245);
    lemma_fundamental_div_mod_converse(245int * 245int, m, 5int, 5010int);
    lemma_fundamental_div_mod_converse(5010int * 2, m, 0int, 10020int);
    assert(mod_pow(2, 687, 11003) == 10020);
    lemma_fundamental_div_mod_converse(10020int * 10020int, m, 9124int, 9028int);
    lemma_fundamental_div_mod_converse(9028int * 2, m, 1int, 7053int);
    assert(mod_pow(2, 1375, 11003) == 7053);
    lemma_fundamental_div_mod_converse(7053int * 7053int, m, 4521int, 246int);
    assert(mod_pow(2, 2750, 11003) == 246);
    lemma_fundamental_div_mod_converse(246int * 246int, m, 5int, 5501int);
    lemma_fundamental_div_mod_converse(5501int * 2, m, 0int, 11002int);
    assert(mod_pow(2, 5501, 11003) == 11002);
}

pub proof fn lemma_pow_11003_by_5501()
    ensures
        mod_pow(2, 2, 11003) == 4,
{
    let m = 11003int;
    lemma_fundamental_div_mod_converse(1, m, 0, 1);
    assert(mod_pow(2, 0, 11003) == 1);
    lemma_fundamental_div_mod_converse(1int * 1int, m, 0int, 1int);
    lemma_fundamental_div_mod_converse(1int * 2, m, 0int, 2int);
    assert(mod_pow(2, 1, 11003) == 2);
    lemma_fundamental_div_mod_converse(2int * 2int, m, 0int, 4int);
    assert(mod_pow(2, 2, 11003) == 4);
}

/// A Lucas–Pratt witness for 11003: generator 2, and n - 1 = 2 * 5501.
pub proof fn lemma_witness_11003()
    ensures
        pratt_witness(11003, 2, seq![2nat, 5501nat]),
{
    lemma_prime_5501();
    lemma_pow_11003_full();
    lemma_pow_11003_by_2();
    lemma_pow_11003_by_5501();
    let fs = seq![2nat, 5501nat];
    assert(product(fs) == 11002nat) by {
        assert(product(Seq::<nat>::empty()) == 1);
        assert(seq![5501nat].len() == 1 && seq![5501nat][0] == 5501nat);
        assert(seq![5501nat].drop_first() =~= Seq::<nat>::empty());
        assert(product(seq![5501nat].drop_first()) == 1nat);
        assert(product(seq![5501nat]) == seq![5501nat][0] * product(seq![5501nat].drop_first()));
        assert(product(seq![5501nat]) == 5501nat);
        assert(seq![2nat, 5501nat].len() == 2 && seq![2nat, 5501nat][0] == 2nat);
        assert(seq![2nat, 5501nat].drop_first() =~= seq![5501nat]);
        assert(product(seq![2nat, 5501nat].drop_first()) == 5501nat);
        assert(product(seq![2nat, 5501nat]) == seq![2nat, 5501nat][0] * product(seq![2nat, 5501nat].drop_first()));
        assert(product(seq![2nat, 5501nat]) == 11002nat);
    }
    assert forall|i: int| 0 <= i < fs.len() implies mod_pow(2, ((11002nat) / fs[i]) as nat, 11003) != 1 && is_prime(#[trigger] fs[i]) by {
        if i == 0 {
            assert(fs[i] == 2);
            lemma_fundamental_div_mod_converse(11002int, 2int, 5501int, 0int);
        } else if i == 1 {
            assert(fs[i] == 5501);
            lemma_fundamental_div_mod_converse(11002int, 5501int, 2int, 0int);
        }
    }
}

/// 11003 is prime.
pub proof fn lemma_prime_11003()
    ensures
        is_prime(11003),
{
    lemma_witness_11003();
    lemma_pratt_prime(11003, 2, seq![2nat, 5501nat]);
}

pub proof fn lemma_pow_13327_full()
    ensures
        mod_pow(3, 13326, 13327) == 1,
{
    let m = 13327int;
    lemma_fundamental_div_mod_converse(1, m, 0, 1);
    assert(mod_pow(3, 0, 13327) == 1);
    lemma_fundamental_div_mod_converse(1int * 1int, m, 0int, 1int);
    lemma_fundamental_div_mod_converse(1int * 3, m, 0int, 3int);
    assert(mod_pow(3, 1, 13327) == 3);
    lemma_fundamental_div_mod_converse(3int * 3int, m, 0int, 9int);
    lemma_fundamental_div_mod_converse(9int * 3, m, 0int, 27int);
    assert(mod_pow(3, 3, 13327) == 27);
    lemma_fundamental_div_mod_converse(27int * 27int, m, 0int, 729int);
    assert(mod_pow(3, 6, 13327) == 729);
    lemma_fundamental_div_mod_converse(729int * 729int, m, 39int, 11688int);
    lemma_fundamental_div_mod_converse(11688int * 3, m, 2int, 8410int);
    assert(mod_pow(3, 13, 13327) == 8410);
    lemma_fundamental_div_mod_converse(8410int * 8410int, m, 5307int, 1711int);
    assert(mod_pow(3, 26, 13327) == 1711);
    lemma_fundamental_div_mod_converse(1711int * 1711int, m, 219int, 8908int);
    assert(mod_pow(3, 52, 13327) == 8908);
    lemma_fundamental_div_mod_converse(8908int * 8908int, m, 5954int, 3506int);
    assert(mod_pow(3, 104, 13327) == 3506);
    lemma_fundamental_div_mod_converse(3506int * 3506int, m, 922int, 4542int);
    assert(mod_pow(3, 208, 13327) == 4542);
    lemma_fundamental_div_mod_converse(4542int * 4542int, m, 1547int, 12895int);
    assert(mod_pow(3, 416, 13327) == 12895);
    lemma_fundamental_div_mod_converse(12895int * 12895int, m, 12477int, 46int);
    assert(mod_pow(3, 832, 13327) == 46);
    lemma_fundamental_div_mod_converse(46int * 46int, m, 0int, 2116int);
    lemma_fundamental_div_mod_converse(2116int * 3, m, 0int, 6348int);
    assert(mod_pow(3, 1665, 13327) == 6348);
    lemma_fundamental_div_mod_converse(6348int * 6348int, m, 3023int, 9583int);
    lemma_fundamental_div_mod_converse(9583int * 3, m, 2int, 2095int);
    assert(mod_pow(3, 3331, 13327) == 2095);
    lemma_fundamental_div_mod_converse(2095int * 2095int, m, 329int, 4442int);
    lemma_fundamental_div_mod_converse(4442int * 3, m, 0int, 13326int);
    assert(mod_pow(3, 6663, 13327) == 13326);
    lemma_fundamental_div_mod_converse(13326int * 13326int, m, 13325int, 1int);
    assert(mod_pow(3, 13326, 13327) == 1);
}

pub proof fn lemma_pow_13327_by_2()
    ensures
        mod_pow(3, 6663, 13327) == 13326,
{
    let m = 13327int;
    lemma_fundamental_div_mod_converse(1, m, 0, 1);
    assert(mod_pow(3, 0, 13327) == 1);
    lemma_fundamental_div_mod_converse(1int * 1int, m, 0int, 1int);
    lemma_fundamental_div_mod_converse(1int * 3, m, 0int, 3int);
    assert(mod_pow(3, 1, 13327) == 3);
    lemma_fundamental_div_mod_converse(3int * 3int, m, 0int, 9int);
    lemma_fundamental_div_mod_converse(9int * 3, m, 0int, 27int);
    assert(mod_pow(3, 3, 13327) == 27);
    lemma_fundamental_div_mod_converse(27int * 27int, m, 0int, 729int);
    assert(mod_pow(3, 6, 13327) == 729);
    lemma_fundamental_div_mod_converse(729int * 729int, m, 39int, 11688int);
    lemma_fundamental_div_mod_converse(11688int * 3, m, 2int, 8410int);
    assert(mod_pow(3, 13, 13327) == 8410);
    lemma_fundamental_div_mod_converse(8410int * 8410int, m, 5307int, 1711int);
    assert(mod_pow(3, 26, 13327) == 1711);
    lemma_fundamental_div_mod_converse(1711int * 1711int, m, 219int, 8908int);
    assert(mod_pow(3, 52, 13327) == 8908);
    lemma_fundamental_div_mod_converse(8908int * 8908int, m, 5954int, 3506int);
    assert(mod_pow(3, 104, 13327) == 3506);
    lemma_fundamental_div_mod_converse(3506int * 3506int, m, 922int, 4542int);
    assert(mod_pow(3, 208, 13327) == 4542);
    lemma_fundamental_div_mod_converse(4542int * 4542int, m, 1547int, 12895int);
    assert(mod_pow(3, 416, 13327) == 12895);
    lemma_fundamental_div_mod_converse(12895int * 12895int, m, 12477int, 46int);
    assert(mod_pow(3, 832, 13327) == 46);
    lemma_fundamental_div_mod_converse(46int * 46int, m, 0int, 2116int);
    lemma_fundamental_div_mod_converse(2116int * 3, m, 0int, 6348int);
    assert(mod_pow(3, 1665, 13327) == 6348);
    lemma_fundamental_div_mod_converse(6348int * 6348int, m, 3023int, 9583int);
    lemma_fundamental_div_mod_converse(9583int * 3, m, 2int, 2095int);
    assert(mod_pow(3, 3331, 13327) == 2095);
    lemma_fundamental_div_mod_converse(2095int * 2095int, m, 329int, 4442int);
    lemma_fundamental_div_mod_converse(4442int * 3, m, 0int, 13326int);
    assert(mod_pow(3, 6663, 13327) == 13326);
}

pub proof fn lemma_pow_13327_by_3()
    ensures
        mod_pow(3, 4442, 13327) == 3142,
{
    let m = 13327int;
    lemma_fundamental_div_mod_converse(1, m, 0, 1);
    assert(mod_pow(3, 0, 13327) == 1);
    lemma_fundamental_div_mod_converse(1int * 1int, m, 0int, 1int);
    lemma_fundamental_div_mod_converse(1int * 3, m, 0int, 3int);
    assert(mod_pow(3, 1, 13327) == 3);
    lemma_fundamental_div_mod_converse(3int * 3int, m, 0int, 9int);
    assert(mod_pow(3, 2, 13327) == 9);
    lemma_fundamental_div_mod_converse(9int * 9int, m, 0int, 81int);
    assert(mod_pow(3, 4, 13327) == 81);
    lemma_fundamental_div_mod_converse(81int * 81int, m, 0int, 6561int);
    assert(mod_pow(3, 8, 13327) == 6561);
    lemma_fundamental_div_mod_converse(6561int * 6561int, m, 3230int, 511int);
    lemma_fundamental_div_mod_converse(511int * 3, m, 0int, 1533int);
    assert(mod_pow(3, 17, 13327) == 1533);
    lemma_fundamental_div_mod_converse(1533int * 1533int, m, 176int, 4537int);
    assert(mod_pow(3, 34, 13327) == 4537);
    lemma_fundamental_div_mod_converse(4537int * 4537int, m, 1544int, 7481int);
    lemma_fundamental_div_mod_converse(7481int * 3, m, 1int, 9116int);
    assert(mod_pow(3, 69, 13327) == 9116);
    lemma_fundamental_div_mod_converse(9116int * 9116int, m, 6235int, 7611int);
    assert(mod_pow(3, 138, 13327) == 7611);
    lemma_fundamental_div_mod_converse(7611int * 7611int, m, 4346int, 8179int);
    lemma_fundamental_div_mod_converse(8179int * 3, m, 1int, 11210int);
    assert(mod_pow(3, 277, 13327) == 11210);
    lemma_fundamental_div_mod_converse(11210int * 11210int, m, 9429int, 3817int);
    lemma_fundamental_div_mod_converse(3817int * 3, m, 0int, 11451int);
    assert(mod_pow(3, 555, 13327) == 11451);
    lemma_fundamental_div_mod_converse(11451int * 11451int, m, 9839int, 1048int);
    assert(mod_pow(3, 1110, 13327) == 1048);
    lemma_fundamental_div_mod_converse(1048int * 1048int, m, 82int, 5490int);
    lemma_fundamental_div_mod_converse(5490int * 3, m, 1int, 3143int);
    assert(mod_pow(3, 2221, 13327) == 3143);
    lemma_fundamental_div_mod_converse(3143int * 3143int, m, 741int, 3142int);
    assert(mod_pow(3, 4442, 13327) == 3142);
}

pub proof fn lemma_pow_13327_by_2221()
    ensures
        mod_pow(3, 6, 13327) == 729,
{
    let m = 13327int;
    lemma_fundamental_div_mod_converse(1, m, 0, 1);
    assert(mod_pow(3, 0, 13327) == 1);
    lemma_fundamental_div_mod_converse(1int * 1int, m, 0int, 1int);
    lemma_fundamental_div_mod_converse(1int * 3, m, 0int, 3int);
    assert(mod_pow(3, 1, 13327) == 3);
    lemma_fundamental_div_mod_converse(3int * 3int, m, 0int, 9int);
    lemma_fundamental_div_mod_converse(9int * 3, m, 0int, 27int);
    assert(mod_pow(3, 3, 13327) == 27);
    lemma_fundamental_div_mod_converse(27int * 27int, m, 0int, 729int);
    assert(mod_pow(3, 6, 13327) == 729);
}

/// A Lucas–Pratt witness for 13327: generator 3, and n - 1 = 2 * 3 * 2221.
pub proof fn lemma_witness_13327()
    ensures
        pratt_witness(13327, 3, seq![2nat, 3nat, 2221nat]),
{
    lemma_prime_3();
    lemma_prime_2221();
    lemma_pow_13327_full();
    lemma_pow_13327_by_2();
    lemma_pow_13327_by_3();
    lemma_pow_13327_by_2221();
    let fs = seq![2nat, 3nat, 2221nat];
    assert(product(fs) == 13326nat) by {
        assert(product(Seq::<nat>::empty()) == 1);
        assert(seq![2221nat].len() == 1 && seq![2221nat][0] == 2221nat);
        assert(seq![2221nat].drop_first() =~= Seq::<nat>::empty());
        assert(product(seq![2221nat].drop_first()) == 1nat);
        assert(product(seq![2221nat]) == seq![2221nat][0] * product(seq![2221nat].drop_first()));
        assert(product(seq![2221nat]) == 2221nat);
        assert(seq![3nat, 2221nat].len() == 2 && seq![3nat, 2221nat][0] == 3nat);
        assert(seq![3nat, 2221nat].drop_first() =~= seq![2221nat]);
        assert(product(seq![3nat, 2221nat].drop_first()) == 2221nat);
        assert(product(seq![3nat, 2221nat]) == seq![3nat, 2221nat][0] * product(seq![3nat, 2221nat].drop_first()));
        assert(product(seq![3nat, 2221nat]) == 6663nat);
        assert(seq![2nat, 3nat, 2221nat].len() == 3 && seq![2nat, 3nat, 2221nat][0] == 2nat);
        assert(seq![2nat, 3nat, 2221nat].drop_first() =~= seq![3nat, 2221nat]);
        assert(product(seq![2nat, 3nat, 2221nat].drop_first()) == 6663nat);
        assert(product(seq![2nat, 3nat, 2221nat]) == seq![2nat, 3nat, 2221nat][0] * product(seq![2nat, 3nat, 2221nat].drop_first()));
        assert(product(seq![2nat, 3nat, 2221nat]) == 13326nat);
    }
    assert forall|i: int| 0 <= i < fs.len() implies mod_pow(3, ((13326nat) / fs[i]) as nat, 13327) != 1 && is_prime(#[trigger] fs[i]) by {
        if i == 0 {
            assert(fs[i] == 2);
            lemma_fundamental_div_mod_converse(13326int, 2int, 6663int, 0int);
        } else if i == 1 {
            assert(fs[i] == 3);
            lemma_fundamental_div_mod_converse(13326int, 3int, 4442int, 0int);
        } else if i == 2 {
            assert(fs[i] == 2221);
            lemma_fundamental_div_mod_converse(13326int, 2221int, 6int, 0int);
        }
    }
}

/// 13327 is prime.
pub proof fn lemma_prime_13327()
    ensures
        is_prime(13327),
{
    lemma_witness_13327();
    lemma_pratt_prime(13327, 3, seq![2nat, 3nat, 2221nat]);
}

pub proof fn lemma_pow_327599_full()
    ensures
        mod_pow(19, 327598, 327599) == 1,
{
    let m = 327599int;
    lemma_fundamental_div_mod_converse(1, m, 0, 1);
    assert(mod_pow(19, 0, 327599) == 1);
    lemma_fundamental_div_mod_converse(1int * 1int, m, 0int, 1int);
    lemma_fundamental_div_mod_converse(1int * 19, m, 0int, 19int);
    assert(mod_pow(19, 1, 327599) == 19);
    lemma_fundamental_div_mod_converse(19int * 19int, m, 0int, 361int);
    assert(mod_pow(19, 2, 327599) == 361);
    lemma_fundamental_div_mod_converse(361int * 361int, m, 0int, 130321int);
    assert(mod_pow(19, 4, 327599) == 130321);
    lemma_fundamental_div_mod_converse(130321int * 130321int, m, 51842int, 175683int);
    lemma_fundamental_div_mod_converse(175683int * 19, m, 10int, 61987int);
    assert(mod_pow(19, 9, 327599) == 61987);
    lemma_fundamental_div_mod_converse(61987int * 61987int, m, 11728int, 307097int);
    lemma_fundamental_div_mod_converse(307097int * 19, m, 17int, 265660int);
    assert(mod_pow(19, 19, 327599) == 265660);
    lemma_fundamental_div_mod_converse(265660int * 265660int, m, 215431int, 255431int);
    lemma_fundamental_div_mod_converse(255431int * 19, m, 14int, 266803int);
    assert(mod_pow(19, 39, 327599) == 266803);
    lemma_fundamental_div_mod_converse(266803int * 266803int, m, 217289int, 181698int);
    lemma_fundamental_div_mod_converse(181698int * 19, m, 10int, 176272int);
    assert(mod_pow(19, 79, 327599) == 176272);
    lemma_fundamental_div_mod_converse(176272int * 176272int, m, 94847int, 35631int);
    lemma_fundamental_div_mod_converse(35631int * 19, m, 2int, 21791int);
    assert(mod_pow(19, 159, 327599) == 21791);
    lemma_fundamental_div_mod_converse(21791int * 21791int, m, 1449int, 156730int);
    lemma_fundamental_div_mod_converse(156730int * 19, m, 9int, 29479int);
    assert(mod_pow(19, 319, 327599) == 29479);
    lemma_fundamental_div_mod_converse(29479int * 29479int, m, 2652int, 218893int);
    lemma_fundamental_div_mod_converse(218893int * 19, m, 12int, 227779int);
    assert(mod_pow(19, 639, 327599) == 227779);
    lemma_fundamental_div_mod_converse(227779int * 227779int, m, 158374int, 108815int);
    lemma_fundamental_div_mod_converse(108815int * 19, m, 6int, 101891int);
    assert(mod_pow(19, 1279, 327599) == 101891);
    lemma_fundamental_div_mod_converse(101891int * 101891int, m, 31690int, 163571int);
    lemma_fundamental_div_mod_converse(163571int * 19, m, 9int, 159458int);
    assert(mod_pow(19, 2559, 327599) == 159458);
    lemma_fundamental_div_mod_converse(159458int * 159458int, m, 77615int, 257379int);
    assert(mod_pow(19, 5118, 327599) == 257379);
    lemma_fundamental_div_mod_converse(257379int * 257379int, m, 202210int, 155851int);
    lemma_fundamental_div_mod_converse(155851int * 19, m, 9int, 12778int);
    assert(mod_pow(19, 10237, 327599) == 12778);
    lemma_fundamental_div_mod_converse(12778int * 12778int, m, 498int, 132982int);
    assert(mod_pow(19, 20474, 327599) == 132982);
    lemma_fundamental_div_mod_converse(132982int * 132982int, m, 53981int, 90705int);
    lemma_fundamental_div_mod_converse(90705int * 19, m, 5int, 85400int);
    assert(mod_pow(19, 40949, 327599) == 85400);
    lemma_fundamental_div_mod_converse(85400int * 85400int, m, 22262int, 151062int);
    lemma_fundamental_div_mod_converse(151062int * 19, m, 8int, 249386int);
    assert(mod_pow(19, 81899, 327599) == 249386);
    lemma_fundamental_div_mod_converse(249386int * 249386int, m, 189846int, 17242int);
    lemma_fundamental_div_mod_converse(17242int * 19, m, 0int, 327598int);
    assert(mod_pow(19, 163799, 327599) == 327598);
    lemma_fundamental_div_mod_converse(327598int * 327598int, m, 327597int, 1int);
    assert(mod_pow(19, 327598, 327599) == 1);
}

pub proof fn lemma_pow_327599_by_2()
    ensures
        mod_pow(19, 163799, 327599) == 327598,
{
    let m = 327599int;
    lemma_fundamental_div_mod_converse(1, m, 0, 1);
    assert(mod_pow(19, 0, 327599) == 1);
    lemma_fundamental_div_mod_converse(1int * 1int, m, 0int, 1int);
    lemma_fundamental_div_mod_converse(1int * 19, m, 0int, 19int);
    assert(mod_pow(19, 1, 327599) == 19);
    lemma_fundamental_div_mod_converse(19int * 19int, m, 0int, 361int);
    assert(mod_pow(19, 2, 327599) == 361);
    lemma_fundamental_div_mod_converse(361int * 361int, m, 0int, 130321int);
    assert(mod_pow(19, 4, 327599) == 130321);
    lemma_fundamental_div_mod_converse(130321int * 130321int, m, 51842int, 175683int);
    lemma_fundamental_div_mod_converse(175683int * 19, m, 10int, 61987int);
    assert(mod_pow(19, 9, 327599) == 61987);
    lemma_fundamental_div_mod_converse(61987int * 61987int, m, 11728int, 307097int);
    lemma_fundamental_div_mod_converse(307097int * 19, m, 17int, 265660int);
    assert(mod_pow(19, 19, 327599) == 265660);
    lemma_fundamental_div_mod_converse(265660int * 265660int, m, 215431int, 255431int);
    lemma_fundamental_div_mod_converse(255431int * 19, m, 14int, 266803int);
    assert(mod_pow(19, 39, 327599) == 266803);
    lemma_fundamental_div_mod_converse(266803int * 266803int, m, 217289int, 181698int);
    lemma_fundamental_div_mod_converse(181698int * 19, m, 10int, 176272int);
    assert(mod_pow(19, 79, 327599) == 176272);
    lemma_fundamental_div_mod_converse(176272int * 176272int, m, 94847int, 35631int);
    lemma_fundamental_div_mod_converse(35631int * 19, m, 2int, 21791int);
    assert(mod_pow(19, 159, 327599) == 21791);
    lemma_fundamental_div_mod_converse(21791int * 21791int, m, 1449int, 156730int);
    lemma_fundamental_div_mod_converse(156730int * 19, m, 9int, 29479int);
    assert(mod_pow(19, 319, 327599) == 29479);
    lemma_fundamental_div_mod_converse(29479int * 29479int, m, 2652int, 218893int);
    lemma_fundamental_div_mod_converse(218893int * 19, m, 12int, 227779int);
    assert(mod_pow(19, 639, 327599) == 227779);
    lemma_fundamental_div_mod_converse(227779int * 227779int, m, 158374int, 108815int);
    lemma_fundamental_div_mod_converse(108815int * 19, m, 6int, 101891int);
    assert(mod_pow(19, 1279, 327599) == 101891);
    lemma_fundamental_div_mod_converse(101891int * 101891int, m, 31690int, 163571int);
    lemma_fundamental_div_mod_converse(163571int * 19, m, 9int, 159458int);
    assert(mod_pow(19, 2559, 327599) == 159458);
    lemma_fundamental_div_mod_converse(159458int * 159458int, m, 77615int, 257379int);
    assert(mod_pow(19, 5118, 327599) == 257379);
    lemma_fundamental_div_mod_converse(257379int * 257379int, m, 202210int, 155851int);
    lemma_fundamental_div_mod_converse(155851int * 19, m, 9int, 12778int);
    assert(mod_pow(19, 10237, 327599) == 12778);
    lemma_fundamental_div_mod_converse(12778int * 12778int, m, 498int, 132982int);
    assert(mod_pow(19, 20474, 327599) == 132982);
    lemma_fundamental_div_mod_converse(132982int * 132982int, m, 53981int, 90705int);
    lemma_fundamental_div_mod_converse(90705int * 19, m, 5int, 85400int);
    assert(mod_pow(19, 40949, 327599) == 85400);
    lemma_fundamental_div_mod_converse(85400int * 85400int, m, 22262int, 151062int);
    lemma_fundamental_div_mod_converse(151062int * 19, m, 8int, 249386int);
    assert(mod_pow(19, 81899, 327599) == 249386);
    lemma_fundamental_div_mod_converse(249386int * 249386int, m, 189846int, 17242int);
    lemma_fundamental_div_mod_converse(17242int * 19, m, 0int, 327598int);
    assert(mod_pow(19, 163799, 327599) == 327598);
}

pub proof fn lemma_pow_327599_by_19()
    ensures
        mod_pow(19, 17242, 327599) == 34768,
{
    let m = 327599int;
    lemma_fundamental_div_mod_converse(1, m, 0, 1);
    assert(mod_pow(19, 0, 327599) == 1);
    lemma_fundamental_div_mod_converse(1int * 1int, m, 0int, 1int);
    lemma_fundamental_div_mod_converse(1int * 19, m, 0int, 19int);
    assert(mod_pow(19, 1, 327599) == 19);
    lemma_fundamental_div_mod_converse(19int * 19int, m, 0int, 361int);
    assert(mod_pow(19, 2, 327599) == 361);
    lemma_fundamental_div_mod_converse(361int * 361int, m, 0int, 130321int);
    assert(mod_pow(19, 4, 327599) == 130321);
    lemma_fundamental_div_mod_converse(130321int * 130321int, m, 51842int, 175683int);
    assert(mod_pow(19, 8, 327599) == 175683);
    lemma_fundamental_div_mod_converse(175683int * 175683int, m, 94214int, 104303int);
    assert(mod_pow(19, 16, 327599) == 104303);
    lemma_fundamental_div_mod_converse(104303int * 104303int, m, 33208int, 208217int);
    lemma_fundamental_div_mod_converse(208217int * 19, m, 12int, 24935int);
    assert(mod_pow(19, 33, 327599) == 24935);
    lemma_fundamental_div_mod_converse(24935int * 24935int, m, 1897int, 298922int);
    lemma_fundamental_div_mod_converse(298922int * 19, m, 17int, 110335int);
    assert(mod_pow(19, 67, 327599) == 110335);
    lemma_fundamental_div_mod_converse(110335int * 110335int, m, 37160int, 233385int);
    assert(mod_pow(19, 134, 327599) == 233385);
    lemma_fundamental_div_mod_converse(233385int * 233385int, m, 166265int, 310490int);
    lemma_fundamental_div_mod_converse(310490int * 19, m, 18int, 2528int);
    assert(mod_pow(19, 269, 327599) == 2528);
    lemma_fundamental_div_mod_converse(2528int * 2528int, m, 19int, 166403int);
    assert(mod_pow(19, 538, 327599) == 166403);
    lemma_fundamental_div_mod_converse(166403int * 166403int, m, 84523int, 308132int);
    lemma_fundamental_div_mod_converse(308132int * 19, m, 17int, 285325int);
    assert(mod_pow(19, 1077, 327599) == 285325);
    lemma_fundamental_div_mod_converse(285325int * 285325int, m, 248506int, 38531int);
    lemma_fundamental_div_mod_converse(38531int * 19, m, 2int, 76891int);
    assert(mod_pow(19, 2155, 327599) == 76891);
    lemma_fundamental_div_mod_converse(76891int * 76891int, m, 18047int, 46728int);
    assert(mod_pow(19, 4310, 327599) == 46728);
    lemma_fundamental_div_mod_converse(46728int * 46728int, m, 6665int, 58649int);
    lemma_fundamental_div_mod_converse(58649int * 19, m, 3int, 131534int);
    assert(mod_pow(19, 8621, 327599) == 131534);
    lemma_fundamental_div_mod_converse(131534int * 131534int, m, 52812int, 34768int);
    assert(mod_pow(19, 17242, 327599) == 34768);
}

pub proof fn lemma_pow_327599_by_37()
    ensures
        mod_pow(19, 8854, 327599) == 283020,
{
    let m = 327599int;
    lemma_fundamental_div_mod_converse(1, m, 0, 1);
    assert(mod_pow(19, 0, 327599) == 1);
    lemma_fundamental_div_mod_converse(1int * 1int, m, 0int, 1int);
    lemma_fundamental_div_mod_converse(1int * 19, m, 0int, 19int);
    assert(mod_pow(19, 1, 327599) == 19);
    lemma_fundamental_div_mod_converse(19int * 19int, m, 0int, 361int);
    assert(mod_pow(19, 2, 327599) == 361);
    lemma_fundamental_div_mod_converse(361int * 361int, m, 0int, 130321int);
    assert(mod_pow(19, 4, 327599) == 130321);
    lemma_fundamental_div_mod_converse(130321int * 130321int, m, 51842int, 175683int);
    assert(mod_pow(19, 8, 327599) == 175683);
    lemma_fundamental_div_mod_converse(175683int * 175683int, m, 94214int, 104303int);
    lemma_fundamental_div_mod_converse(104303int * 19, m, 6int, 16163int);
    assert(mod_pow(19, 17, 327599) == 16163);
    lemma_fundamental_div_mod_converse(16163int * 16163int, m, 797int, 146166int);
    assert(mod_pow(19, 34, 327599) == 146166);
    lemma_fundamental_div_mod_converse(146166int * 146166int, m, 65215int, 130771int);
    lemma_fundamental_div_mod_converse(130771int * 19, m, 7int, 191456int);
    assert(mod_pow(19, 69, 327599) == 191456);
    lemma_fundamental_div_mod_converse(191456int * 191456int, m, 111891int, 20227int);
    assert(mod_pow(19, 138, 327599) == 20227);
    lemma_fundamental_div_mod_converse(20227int * 20227int, m, 1248int, 287977int);
    assert(mod_pow(19, 276, 327599) == 287977);
    lemma_fundamental_div_mod_converse(287977int * 287977int, m, 253147int, 48476int);
    lemma_fundamental_div_mod_converse(48476int * 19, m, 2int, 265846int);
    assert(mod_pow(19, 553, 327599) == 265846);
    lemma_fundamental_div_mod_converse(265846int * 265846int, m, 215733int, 180649int);
    assert(mod_pow(19, 1106, 327599) == 180649);
    lemma_fundamental_div_mod_converse(180649int * 180649int, m, 99615int, 286816int);
    lemma_fundamental_div_mod_converse(286816int * 19, m, 16int, 207920int);
    assert(mod_pow(19, 2213, 327599) == 207920);
    lemma_fundamental_div_mod_converse(207920int * 207920int, m, 131962int, 107162int);
    lemma_fundamental_div_mod_converse(107162int * 19, m, 6int, 70484int);
    assert(mod_pow(19, 4427, 327599) == 70484);
    lemma_fundamental_div_mod_converse(70484int * 70484int, m, 15164int, 283020int);
    assert(mod_pow(19, 8854, 327599) == 283020);
}

pub proof fn lemma_pow_327599_by_233()
    ensures
        mod_pow(19, 1406, 327599) == 110252,
{
    let m = 327599int;
    lemma_fundamental_div_mod_converse(1, m, 0, 1);
    assert(mod_pow(19, 0, 327599) == 1);
    lemma_fundamental_div_mod_converse(1int * 1int, m, 0int, 1int);
    lemma_fundamental_div_mod_converse(1int * 19, m, 0int, 19int);
    assert(mod_pow(19, 1, 327599) == 19);
    lemma_fundamental_div_mod_converse(19int * 19int, m, 0int, 361int);
    assert(mod_pow(19, 2, 327599) == 361);
    lemma_fundamental_div_mod_converse(361int * 361int, m, 0int, 130321int);
    lemma_fundamental_div_mod_converse(130321int * 19, m, 7int, 182906int);
    assert(mod_pow(19, 5, 327599) == 182906);
    lemma_fundamental_div_mod_converse(182906int * 182906int, m, 102120int, 194956int);
    assert(mod_pow(19, 10, 327599) == 194956);
    lemma_fundamental_div_mod_converse(194956int * 194956int, m, 116019int, 133555int);
    lemma_fundamental_div_mod_converse(133555int * 19, m, 7int, 244352int);
    assert(mod_pow(19, 21, 327599) == 244352);
    lemma_fundamental_div_mod_converse(244352int * 244352int, m, 182259int, 33763int);
    lemma_fundamental_div_mod_converse(33763int * 19, m, 1int, 313898int);
    assert(mod_pow(19, 43, 327599) == 313898);
    lemma_fundamental_div_mod_converse(313898int * 313898int, m, 300770int, 3174int);
    lemma_fundamental_div_mod_converse(3174int * 19, m, 0int, 60306int);
    assert(mod_pow(19, 87, 327599) == 60306);
    lemma_fundamental_div_mod_converse(60306int * 60306int, m, 11101int, 137137int);
    lemma_fundamental_div_mod_converse(137137int * 19, m, 7int, 312410int);
    assert(mod_pow(19, 175, 327599) == 312410);
    lemma_fundamental_div_mod_converse(312410int * 312410int, m, 297925int, 76025int);
    lemma_fundamental_div_mod_converse(76025int * 19, m, 4int, 134079int);
    assert(mod_pow(19, 351, 327599) == 134079);
    lemma_fundamental_div_mod_converse(134079int * 134079int, m, 54875int, 183116int);
    lemma_fundamental_div_mod_converse(183116int * 19, m, 10int, 203214int);
    assert(mod_pow(19, 703, 327599) == 203214);
    lemma_fundamental_div_mod_converse(203214int * 203214int, m, 126056int, 110252int);
    assert(mod_pow(19, 1406, 327599) == 110252);
}

/// A Lucas–Pratt witness for 327599: generator 19, and n - 1 = 2 * 19 * 37 * 233.
pub proof fn lemma_witness_327599()
    ensures
        pratt_witness(327599, 19, seq![2nat, 19nat, 37nat, 233nat]),
{
    lemma_prime_19();
    lemma_prime_37();
    lemma_prime_233();
    lemma_pow_327599_full();
    lemma_pow_327599_by_2();
    lemma_pow_327599_by_19();
    lemma_pow_327599_by_37();
    lemma_pow_327599_by_233();
    let fs = seq![2nat, 19nat, 37nat, 233nat];
    assert(product(fs) == 327598nat) by {
        assert(product(Seq::<nat>::empty()) == 1);
        assert(seq![233nat].len() == 1 && seq![233nat][0] == 233nat);
        assert(seq![233nat].drop_first() =~= Seq::<nat>::empty());
        assert(product(seq![233nat].drop_first()) == 1nat);
        assert(product(seq![233nat]) == seq![233nat][0] * product(seq![233nat].drop_first()));
        assert(product(seq![233nat]) == 233nat);
        assert(seq![37nat, 233nat].len() == 2 && seq![37nat, 233nat][0] == 37nat);
        assert(seq![37nat, 233nat].drop_first() =~= seq![233nat]);
        assert(product(seq![37nat, 233nat].drop_first()) == 233nat);
        assert(product(seq![37nat, 233nat]) == seq![37nat, 233nat][0] * product(seq![37nat, 233nat].drop_first()));
        assert(product(seq![37nat, 233nat]) == 8621nat);
        assert(seq![19nat, 37nat, 233nat].len() == 3 && seq![19nat, 37nat, 233nat][0] == 19nat);
        assert(seq![19nat, 37nat, 233nat].drop_first() =~= seq![37nat, 233nat]);
        assert(product(seq![19nat, 37nat, 233nat].drop_first()) == 8621nat);
        assert(product(seq![19nat, 37nat, 233nat]) == seq![19nat, 37nat, 233nat][0] * product(seq![19nat, 37nat, 233nat].drop_first()));
        assert(product(seq![19nat, 37nat, 233nat]) == 163799nat);
        assert(seq![2nat, 19nat, 37nat, 233nat].len() == 4 && seq![2nat, 19nat, 37nat, 233nat][0] == 2nat);
        assert(seq![2nat, 19nat, 37nat, 233nat].drop_first() =~= seq![19nat, 37nat, 233nat]);
        assert(product(seq![2nat, 19nat, 37nat, 233nat].drop_first()) == 163799nat);
        assert(product(seq![2nat, 19nat, 37nat, 233nat]) == seq![2nat, 19nat, 37nat, 233nat][0] * product(seq![2nat, 19nat, 37nat, 233nat].drop_first()));
        assert(product(seq![2nat, 19nat, 37nat, 233nat]) == 327598nat);
    }
    assert forall|i: int| 0 <= i < fs.len() implies mod_pow(19, ((327598nat) / fs[i]) as nat, 327599) != 1 && is_prime(#[trigger] fs[i]) by {
        if i == 0 {
            assert(fs[i] == 2);
            lemma_fundamental_div_mod_converse(327598int, 2int, 163799int, 0int);
        } else if i == 1 {
            assert(fs[i] == 19);
            lemma_fundamental_div_mod_converse(327598int, 19int, 17242int, 0int);
        } else if i == 2 {
            assert(fs[i] == 37);
            lemma_fundamental_div_mod_converse(327598int, 37int, 8854int, 0int);
        } else if i == 3 {
            assert(fs[i] == 233);
            lemma_fundamental_div_mod_converse(327598int, 233int, 1406int, 0int);
        }
    }
}

/// 327599 is prime.
pub proof fn lemma_prime_327599()
    ensures
        is_prime(327599),
{
    lemma_witness_327599();
    lemma_pratt_prime(327599, 19, seq![2nat, 19nat, 37nat, 233nat]);
}

pub proof fn lemma_pow_1853641_full()
    ensures
        mod_pow(17, 1853640, 1853641) == 1,
{
    let m = 1853641int;
    lemma_fundamental_div_mod_converse(1, m, 0, 1);
    assert(mod_pow(17, 0, 1853641) == 1);
    lemma_fundamental_div_mod_converse(1int * 1int, m, 0int, 1int);
    lemma_fundamental_div_mod_converse(1int * 17, m, 0int, 17int);
    assert(mod_pow(17, 1, 1853641) == 17);
    lemma_fundamental_div_mod_converse(17int * 17int, m, 0int, 289int);
    lemma_fundamental_div_mod_converse(289int * 17, m, 0int, 4913int);
    assert(mod_pow(17, 3, 1853641) == 4913);
    lemma_fundamental_div_mod_converse(4913int * 4913int, m, 13int, 40236int);
    lemma_fundamental_div_mod_converse(40236int * 17, m, 0int, 684012int);
    assert(mod_pow(17, 7, 1853641) == 684012);
    lemma_fundamental_div_mod_converse(684012int * 684012int, m, 252407int, 452257int);
    assert(mod_pow(17, 14, 1853641) == 452257);
    lemma_fundamental_div_mod_converse(452257int * 452257int, m, 110343int, 85186int);
    assert(mod_pow(17, 28, 1853641) == 85186);
    lemma_fundamental_div_mod_converse(85186int * 85186int, m, 3914int, 1503722int);
    assert(mod_pow(17, 56, 1853641) == 1503722);
    lemma_fundamental_div_mod_converse(1503722int * 1503722int, m, 1219858int, 1050306int);
    lemma_fundamental_div_mod_converse(1050306int * 17, m, 9int, 1172433int);
    assert(mod_pow(17, 113, 1853641) == 1172433);
    lemma_fundamental_div_mod_converse(1172433int * 1172433int, m, 741567int, 144042int);
    assert(mod_pow(17, 226, 1853641) == 144042);
    lemma_fundamental_div_mod_converse(144042int * 144042int, m, 11193int, 294051int);
    assert(mod_pow(17, 452, 1853641) == 294051);
    lemma_fundamental_div_mod_converse(294051int * 294051int, m, 46646int, 1052515int);
    lemma_fundamental_div_mod_converse(1052515int * 17, m, 9int, 1209986int);
    assert(mod_pow(17, 905, 1853641) == 1209986);
    lemma_fundamental_div_mod_converse(1209986int * 1209986int, m, 789832int, 1141884int);
    assert(mod_pow(17, 1810, 1853641) == 1141884);
    lemma_fundamental_div_mod_converse(1141884int * 1141884int, m, 703425int, 1649031int);
    assert(mod_pow(17, 3620, 1853641) == 1649031);
    lemma_fundamental_div_mod_converse(1649031int * 1649031int, m, 1467006int, 770115int);
    assert(mod_pow(17, 7240, 1853641) == 770115);
    lemma_fundamental_div_mod_converse(770115int * 770115int, m, 319952int, 967993int);
    lemma_fundamental_div_mod_converse(967993int * 17, m, 8int, 1626753int);
    assert(mod_pow(17, 14481, 1853641) == 1626753);
    lemma_fundamental_div_mod_converse(1626753int * 1626753int, m, 1427636int, 700333int);
    lemma_fundamental_div_mod_converse(700333int * 17, m, 6int, 783815int);
    assert(mod_pow(17, 28963, 1853641) == 783815);
    lemma_fundamental_div_mod_converse(783815int * 783815int, m, 331437int, 742108int);
    assert(mod_pow(17, 57926, 1853641) == 742108);
    lemma_fundamental_div_mod_converse(742108int * 742108int, m, 297104int, 128000int);
    assert(mod_pow(17, 115852, 1853641) == 128000);
    lemma_fundamental_div_mod_converse(128000int * 128000int, m, 8838int, 1520842int);
    lemma_fundamental_div_mod_converse(1520842int * 17, m, 13int, 1756981int);
    assert(mod_pow(17, 231705, 1853641) == 1756981);
    lemma_fundamental_div_mod_converse(1756981int * 1756981int, m, 1665361int, 804960int);
    assert(mod_pow(17, 463410, 1853641) == 804960);
    lemma_fundamental_div_mod_converse(804960int * 804960int, m, 349560int, 1853640int);
    assert(mod_pow(17, 926820, 1853641) == 1853640);
    lemma_fundamental_div_mod_converse(1853640int * 1853640int, m, 1853639int, 1int);
    assert(mod_pow(17, 1853640, 1853641) == 1);
}

pub proof fn lemma_pow_1853641_by_2()
    ensures
        mod_pow(17, 926820, 1853641) == 1853640,
{
    let m = 1853641int;
    lemma_fundamental_div_mod_converse(1, m, 0, 1);
    assert(mod_pow(17, 0, 1853641) == 1);
    lemma_fundamental_div_mod_converse(1int * 1int, m, 0int, 1int);
    lemma_fundamental_div_mod_converse(1int * 17, m, 0int, 17int);
    assert(mod_pow(17, 1, 1853641) == 17);
    lemma_fundamental_div_mod_converse(17int * 17int, m, 0int, 289int);
    lemma_fundamental_div_mod_converse(289int * 17, m, 0int, 4913int);
    assert(mod_pow(17, 3, 1853641) == 4913);
    lemma_fundamental_div_mod_converse(4913int * 4913int, m, 13int, 40236int);
    lemma_fundamental_div_mod_converse(40236int * 17, m, 0int, 684012int);
    assert(mod_pow(17, 7, 1853641) == 684012);
    lemma_fundamental_div_mod_converse(684012int * 684012int, m, 252407int, 452257int);
    assert(mod_pow(17, 14, 1853641) == 452257);
    lemma_fundamental_div_mod_converse(452257int * 452257int, m, 110343int, 85186int);
    assert(mod_pow(17, 28, 1853641) == 85186);
    lemma_fundamental_div_mod_converse(85186int * 85186int, m, 3914int, 1503722int);
    assert(mod_pow(17, 56, 1853641) == 1503722);
    lemma_fundamental_div_mod_converse(1503722int * 1503722int, m, 1219858int, 1050306int);
    lemma_fundamental_div_mod_converse(1050306int * 17, m, 9int, 1172433int);
    assert(mod_pow(17, 113, 1853641) == 1172433);
    lemma_fundamental_div_mod_converse(1172433int * 1172433int, m, 741567int, 144042int);
    assert(mod_pow(17, 226, 1853641) == 144042);
    lemma_fundamental_div_mod_converse(144042int * 144042int, m, 11193int, 294051int);
    assert(mod_pow(17, 452, 1853641) == 294051);
    lemma_fundamental_div_mod_converse(294051int * 294051int, m, 46646int, 1052515int);
    lemma_fundamental_div_mod_converse(1052515int * 17, m, 9int, 1209986int);
    assert(mod_pow(17, 905, 1853641) == 1209986);
    lemma_fundamental_div_mod_converse(1209986int * 1209986int, m, 789832int, 1141884int);
    assert(mod_pow(17, 1810, 1853641) == 1141884);
    lemma_fundamental_div_mod_converse(1141884int * 1141884int, m, 703425int, 1649031int);
    assert(mod_pow(17, 3620, 1853641) == 1649031);
    lemma_fundamental_div_mod_converse(1649031int * 1649031int, m, 1467006int, 770115int);
    assert(mod_pow(17, 7240, 1853641) == 770115);
    lemma_fundamental_div_mod_converse(770115int * 770115int, m, 319952int, 967993int);
    lemma_fundamental_div_mod_converse(967993int * 17, m, 8int, 1626753int);
    assert(mod_pow(17, 14481, 1853641) == 1626753);
    lemma_fundamental_div_mod_converse(1626753int * 1626753int, m, 1427636int, 700333int);
    lemma_fundamental_div_mod_converse(700333int * 17, m, 6int, 783815int);
    assert(mod_pow(17, 28963, 1853641) == 783815);
    lemma_fundamental_div_mod_converse(783815int * 783815int, m, 331437int, 742108int);
    assert(mod_pow(17, 57926, 1853641) == 742108);
    lemma_fundamental_div_mod_converse(742108int * 742108int, m, 297104int, 128000int);
    assert(mod_pow(17, 115852, 1853641) == 128000);
    lemma_fundamental_div_mod_converse(128000int * 128000int, m, 8838int, 1520842int);
    lemma_fundamental_div_mod_converse(1520842int * 17, m, 13int, 1756981int);
    assert(mod_pow(17, 231705, 1853641) == 1756981);
    lemma_fundamental_div_mod_converse(1756981int * 1756981int, m, 1665361int, 804960int);
    assert(mod_pow(17, 463410, 1853641) == 804960);
    lemma_fundamental_div_mod_converse(804960int * 804960int, m, 349560int, 1853640int);
    assert(mod_pow(17, 926820, 1853641) == 1853640);
}

pub proof fn lemma_pow_1853641_by_3()
    ensures
        mod_pow(17, 617880, 1853641) == 536485,
{
    let m = 1853641int;
    lemma_fundamental_div_mod_converse(1, m, 0, 1);
    assert(mod_pow(17, 0, 1853641) == 1);
    lemma_fundamental_div_mod_converse(1int * 1int, m, 0int, 1int);
    lemma_fundamental_div_mod_converse(1int * 17, m, 0int, 17int);
    assert(mod_pow(17, 1, 1853641) == 17);
    lemma_fundamental_div_mod_converse(17int * 17int, m, 0int, 289int);
    assert(mod_pow(17, 2, 1853641) == 289);
    lemma_fundamental_div_mod_converse(289int * 289int, m, 0int, 83521int);
    assert(mod_pow(17, 4, 1853641) == 83521);
    lemma_fundamental_div_mod_converse(83521int * 83521int, m, 3763int, 506358int);
    lemma_fundamental_div_mod_converse(506358int * 17, m, 4int, 1193522int);
    assert(mod_pow(17, 9, 1853641) == 1193522);
    lemma_fundamental_div_mod_converse(1193522int * 1193522int, m, 768484int, 1314240int);
    assert(mod_pow(17, 18, 1853641) == 1314240);
    lemma_fundamental_div_mod_converse(1314240int * 1314240int, m, 931802int, 386518int);
    lemma_fundamental_div_mod_converse(386518int * 17, m, 3int, 1009883int);
    assert(mod_pow(17, 37, 1853641) == 1009883);
    lemma_fundamental_div_mod_converse(1009883int * 1009883int, m, 550194int, 1517335int);
    lemma_fundamental_div_mod_converse(1517335int * 17, m, 13int, 1697362int);
    assert(mod_pow(17, 75, 1853641) == 1697362);
    lemma_fundamental_div_mod_converse(1697362int * 1697362int, m, 1554258int, 1405666int);
    assert(mod_pow(17, 150, 1853641) == 1405666);
    lemma_fundamental_div_mod_converse(1405666int * 1405666int, m, 1065954int, 865042int);
    lemma_fundamental_div_mod_converse(865042int * 17, m, 7int, 1730227int);
    assert(mod_pow(17, 301, 1853641) == 1730227);
    lemma_fundamental_div_mod_converse(1730227int * 1730227int, m, 1615029int, 1500940int);
    lemma_fundamental_div_mod_converse(1500940int * 17, m, 13int, 1418647int);
    assert(mod_pow(17, 603, 1853641) == 1418647);
    lemma_fundamental_div_mod_converse(1418647int * 1418647int, m, 1085733int, 106756int);
    assert(mod_pow(17, 1206, 1853641) == 106756);
    lemma_fundamental_div_mod_converse(106756int * 106756int, m, 6148int, 658668int);
    lemma_fundamental_div_mod_converse(658668int * 17, m, 6int, 75510int);
    assert(mod_pow(17, 2413, 1853641) == 75510);
    lemma_fundamental_div_mod_converse(75510int * 75510int, m, 3075int, 1814025int);
    lemma_fundamental_div_mod_converse(1814025int * 17, m, 16int, 1180169int);
    assert(mod_pow(17, 4827, 1853641) == 1180169);
    lemma_fundamental_div_mod_converse(1180169int * 1180169int, m, 751385int, 825776int);
    assert(mod_pow(17, 9654, 1853641) == 825776);
    lemma_fundamental_div_mod_converse(825776int * 825776int, m, 367873int, 1526583int);
    assert(mod_pow(17, 19308, 1853641) == 1526583);
    lemma_fundamental_div_mod_converse(1526583int * 1526583int, m, 1257231int, 727818int);
    lemma_fundamental_div_mod_converse(727818int * 17, m, 6int, 1251060int);
    assert(mod_pow(17, 38617, 1853641) == 1251060);
    lemma_fundamental_div_mod_converse(1251060int * 1251060int, m, 844365int, 1540635int);
    lemma_fundamental_div_mod_converse(1540635int * 17, m, 14int, 239821int);
    assert(mod_pow(17, 77235, 1853641) == 239821);
    lemma_fundamental_div_mod_converse(239821int * 239821int, m, 31027int, 1192734int);
    assert(mod_pow(17, 154470, 1853641) == 1192734);
    lemma_fundamental_div_mod_converse(1192734int * 1192734int, m, 767470int, 536486int);
    assert(mod_pow(17, 308940, 1853641) == 536486);
    lemma_fundamental_div_mod_converse(536486int * 536486int, m, 155271int, 536485int);
    assert(mod_pow(17, 617880, 1853641) == 536485);
}

pub proof fn lemma_pow_1853641_by_5()
    ensures
        mod_pow(17, 370728, 1853641) == 1294646,
{
    let m = 1853641int;
    lemma_fundamental_div_mod_converse(1, m, 0, 1);
    assert(mod_pow(17, 0, 1853641) == 1);
    lemma_fundamental_div_mod_converse(1int * 1int, m, 0int, 1int);
    lemma_fundamental_div_mod_converse(1int * 17, m, 0int, 17int);
    assert(mod_pow(17, 1, 1853641) == 17);
    lemma_fundamental_div_mod_converse(17int * 17int, m, 0int, 289int);
    assert(mod_pow(17, 2, 1853641) == 289);
    lemma_fundamental_div_mod_converse(289int * 289int, m, 0int, 83521int);
    lemma_fundamental_div_mod_converse(83521int * 17, m, 0int, 1419857int);
    assert(mod_pow(17, 5, 1853641) == 1419857);
    lemma_fundamental_div_mod_converse(1419857int * 1419857int, m, 1087585int, 1753464int);
    lemma_fundamental_div_mod_converse(1753464int * 17, m, 16int, 150632int);
    assert(mod_pow(17, 11, 1853641) == 150632);
    lemma_fundamental_div_mod_converse(150632int * 150632int, m, 12240int, 1433584int);
    assert(mod_pow(17, 22, 1853641) == 1433584);
    lemma_fundamental_div_mod_converse(1433584int * 1433584int, m, 1108716int, 1650100int);
    lemma_fundamental_div_mod_converse(1650100int * 17, m, 15int, 247085int);
    assert(mod_pow(17, 45, 1853641) == 247085);
    lemma_fundamental_div_mod_converse(247085int * 247085int, m, 32935int, 1330890int);
    assert(mod_pow(17, 90, 1853641) == 1330890);
    lemma_fundamental_div_mod_converse(1330890int * 1330890int, m, 955561int, 1144499int);
    lemma_fundamental_div_mod_converse(1144499int * 17, m, 10int, 920073int);
    assert(mod_pow(17, 181, 1853641) == 920073);
    lemma_fundamental_div_mod_converse(920073int * 920073int, m, 456687int, 577962int);
    assert(mod_pow(17, 362, 1853641) == 577962);
    lemma_fundamental_div_mod_converse(577962int * 577962int, m, 180207int, 989757int);
    assert(mod_pow(17, 724, 1853641) == 989757);
    lemma_fundamental_div_mod_converse(989757int * 989757int, m, 528483int, 1162446int);
    assert(mod_pow(17, 1448, 1853641) == 1162446);
    lemma_fundamental_div_mod_converse(1162446int * 1162446int, m, 728987int, 511249int);
    assert(mod_pow(17, 2896, 1853641) == 511249);
    lemma_fundamental_div_mod_converse(511249int * 511249int, m, 141006int, 1037155int);
    assert(mod_pow(17, 5792, 1853641) == 1037155);
    lemma_fundamental_div_mod_converse(1037155int * 1037155int, m, 580312int, 378033int);
    lemma_fundamental_div_mod_converse(378033int * 17, m, 3int, 865638int);
    assert(mod_pow(17, 11585, 1853641) == 865638);
    lemma_fundamental_div_mod_converse(865638int * 865638int, m, 404247int, 333717int);
    assert(mod_pow(17, 23170, 1853641) == 333717);
    lemma_fundamental_div_mod_converse(333717int * 333717int, m, 60080int, 284809int);
    lemma_fundamental_div_mod_converse(284809int * 17, m, 2int, 1134471int);
    assert(mod_pow(17, 46341, 1853641) == 1134471);
    lemma_fundamental_div_mod_converse(1134471int * 1134471int, m, 694322int, 723439int);
    assert(mod_pow(17, 92682, 1853641) == 723439);
    lemma_fundamental_div_mod_converse(723439int * 723439int, m, 282343int, 1425858int);
    assert(mod_pow(17, 185364, 1853641) == 1425858);
    lemma_fundamental_div_mod_converse(1425858int * 1425858int, m, 1096798int, 1294646int);
    assert(mod_pow(17, 370728, 1853641) == 1294646);
}

pub proof fn lemma_pow_1853641_by_19()
    ensures
        mod_pow(17, 97560, 1853641) == 1800158,
{
    let m = 1853641int;
    lemma_fundamental_div_mod_converse(1, m, 0, 1);
    assert(mod_pow(17, 0, 1853641) == 1);
    lemma_fundamental_div_mod_converse(1int * 1int, m, 0int, 1int);
    lemma_fundamental_div_mod_converse(1int * 17, m, 0int, 17int);
    assert(mod_pow(17, 1, 1853641) == 17);
    lemma_fundamental_div_mod_converse(17int * 17int, m, 0int, 289int);
    assert(mod_pow(17, 2, 1853641) == 289);
    lemma_fundamental_div_mod_converse(289int * 289int, m, 0int, 83521int);
    lemma_fundamental_div_mod_converse(83521int * 17, m, 0int, 1419857int);
    assert(mod_pow(17, 5, 1853641) == 1419857);
    lemma_fundamental_div_mod_converse(1419857int * 1419857int, m, 1087585int, 1753464int);
    lemma_fundamental_div_mod_converse(1753464int * 17, m, 16int, 150632int);
    assert(mod_pow(17, 11, 1853641) == 150632);
    lemma_fundamental_div_mod_converse(150632int * 150632int, m, 12240int, 1433584int);
    lemma_fundamental_div_mod_converse(1433584int * 17, m, 13int, 273595int);
    assert(mod_pow(17, 23, 1853641) == 273595);
    lemma_fundamental_div_mod_converse(273595int * 273595int, m, 40382int, 493163int);
    lemma_fundamental_div_mod_converse(493163int * 17, m, 4int, 969207int);
    assert(mod_pow(17, 47, 1853641) == 969207);
    lemma_fundamental_div_mod_converse(969207int * 969207int, m, 506765int, 1827484int);
    lemma_fundamental_div_mod_converse(1827484int * 17, m, 16int, 1408972int);
    assert(mod_pow(17, 95, 1853641) == 1408972);
    lemma_fundamental_div_mod_converse(1408972int * 1408972int, m, 1070974int, 780450int);
    assert(mod_pow(17, 190, 1853641) == 780450);
    lemma_fundamental_div_mod_converse(780450int * 780450int, m, 328597int, 1330823int);
    lemma_fundamental_div_mod_converse(1330823int * 17, m, 12int, 380299int);
    assert(mod_pow(17, 381, 1853641) == 380299);
    lemma_fundamental_div_mod_converse(380299int * 380299int, m, 78023int, 697658int);
    assert(mod_pow(17, 762, 1853641) == 697658);
    lemma_fundamental_div_mod_converse(697658int * 697658int, m, 262578int, 1338466int);
    assert(mod_pow(17, 1524, 1853641) == 1338466);
    lemma_fundamental_div_mod_converse(1338466int * 1338466int, m, 966471int, 962245int);
    assert(mod_pow(17, 3048, 1853641) == 962245);
    lemma_fundamental_div_mod_converse(962245int * 962245int, m, 499511int, 1370474int);
    lemma_fundamental_div_mod_converse(1370474int * 17, m, 12int, 1054366int);
    assert(mod_pow(17, 6097, 1853641) == 1054366);
    lemma_fundamental_div_mod_converse(1054366int * 1054366int, m, 599731int, 1691385int);
    lemma_fundamental_div_mod_converse(1691385int * 17, m, 15int, 948930int);
    assert(mod_pow(17, 12195, 1853641) == 948930);
    lemma_fundamental_div_mod_converse(948930int * 948930int, m, 485783int, 858997int);
    assert(mod_pow(17, 24390, 1853641) == 858997);
    lemma_fundamental_div_mod_converse(858997int * 858997int, m, 398068int, 680421int);
    assert(mod_pow(17, 48780, 1853641) == 680421);
    lemma_fundamental_div_mod_converse(680421int * 680421int, m, 249763int, 1800158int);
    assert(mod_pow(17, 97560, 1853641) == 1800158);
}

pub proof fn lemma_pow_1853641_by_271()
    ensures
        mod_pow(17, 6840, 1853641) == 763656,
{
    let m = 1853641int;
    lemma_fundamental_div_mod_converse(1, m, 0, 1);
    assert(mod_pow(17, 0, 1853641) == 1);
    lemma_fundamental_div_mod_converse(1int * 1int, m, 0int, 1int);
    lemma_fundamental_div_mod_converse(1int * 17, m, 0int, 17int);
    assert(mod_pow(17, 1, 1853641) == 17);
    lemma_fundamental_div_mod_converse(17int * 17int, m, 0int, 289int);
    lemma_fundamental_div_mod_converse(289int * 17, m, 0int, 4913int);
    assert(mod_pow(17, 3, 1853641) == 4913);
    lemma_fundamental_div_mod_converse(4913int * 4913int, m, 13int, 40236int);
    assert(mod_pow(17, 6, 1853641) == 40236);
    lemma_fundamental_div_mod_converse(40236int * 40236int, m, 873int, 707103int);
    lemma_fundamental_div_mod_converse(707103int * 17, m, 6int, 898905int);
    assert(mod_pow(17, 13, 1853641) == 898905);
    lemma_fundamental_div_mod_converse(898905int * 898905int, m, 435915int, 282510int);
    assert(mod_pow(17, 26, 1853641) == 282510);
    lemma_fundamental_div_mod_converse(282510int * 282510int, m, 43056int, 1533204int);
    lemma_fundamental_div_mod_converse(1533204int * 17, m, 14int, 113494int);
    assert(mod_pow(17, 53, 1853641) == 113494);
    lemma_fundamental_div_mod_converse(113494int * 113494int, m, 6948int, 1790368int);
    assert(mod_pow(17, 106, 1853641) == 1790368);
    lemma_fundamental_div_mod_converse(1790368int * 1790368int, m, 1729254int, 1461610int);
    lemma_fundamental_div_mod_converse(1461610int * 17, m, 13int, 750037int);
    assert(mod_pow(17, 213, 1853641) == 750037);
    lemma_fundamental_div_mod_converse(750037int * 750037int, m, 303486int, 1408843int);
    lemma_fundamental_div_mod_converse(1408843int * 17, m, 12int, 1706639int);
    assert(mod_pow(17, 427, 1853641) == 1706639);
    lemma_fundamental_div_mod_converse(1706639int * 1706639int, m, 1571294int, 1694867int);
    lemma_fundamental_div_mod_converse(1694867int * 17, m, 15int, 1008124int);
    assert(mod_pow(17, 855, 1853641) == 1008124);
    lemma_fundamental_div_mod_converse(1008124int * 1008124int, m, 548279int, 1565537int);
    assert(mod_pow(17, 1710, 1853641) == 1565537);
    lemma_fundamental_div_mod_converse(1565537int * 1565537int, m, 1322211int, 1578118int);
    assert(mod_pow(17, 3420, 1853641) == 1578118);
    lemma_fundamental_div_mod_converse(1578118int * 1578118int, m, 1343548int, 763656int);
    assert(mod_pow(17, 6840, 1853641) == 763656);
}

/// A Lucas–Pratt witness for 1853641: generator 17, and n - 1 = 2^3 * 3^2 * 5 * 19 * 271.
pub proof fn lemma_witness_1853641()
    ensures
        pratt_witness(1853641, 17, seq![2nat, 2nat, 2nat, 3nat, 3nat, 5nat, 19nat, 271nat]),
{
    lemma_prime_3();
    lemma_prime_5();
    lemma_prime_19();
    lemma_prime_271();
    lemma_pow_1853641_full();
    lemma_pow_1853641_by_2();
    lemma_pow_1853641_by_3();
    lemma_pow_1853641_by_5();
    lemma_pow_1853641_by_19();
    lemma_pow_1853641_by_271();
    let fs = seq![2nat, 2nat, 2nat, 3nat, 3nat, 5nat, 19nat, 271nat];
    assert(product(fs) == 1853640nat) by {
        assert(product(Seq::<nat>::empty()) == 1);
        assert(seq![271nat].len() == 1 && seq![271nat][0] == 271nat);
        assert(seq![271nat].drop_first() =~= Seq::<nat>::empty());
        assert(product(seq![271nat].drop_first()) == 1nat);
        assert(product(seq![271nat]) == seq![271nat][0] * product(seq![271nat].drop_first()));
        assert(product(seq![271nat]) == 271nat);
        assert(seq![19nat, 271nat].len() == 2 && seq![19nat, 271nat][0] == 19nat);
        assert(seq![19nat, 271nat].drop_first() =~= seq![271nat]);
        assert(product(seq![19nat, 271nat].drop_first()) == 271nat);
        assert(product(seq![19nat, 271nat]) == seq![19nat, 271nat][0] * product(seq![19nat, 271nat].drop_first()));
        assert(product(seq![19nat, 271nat]) == 5149nat);
        assert(seq![5nat, 19nat, 271nat].len() == 3 && seq![5nat, 19nat, 271nat][0] == 5nat);
        assert(seq![5nat, 19nat, 271nat].drop_first() =~= seq![19nat, 271nat]);
        assert(product(seq![5nat, 19nat, 271nat].drop_first()) == 5149nat);
        assert(product(seq![5nat, 19nat, 271nat]) == seq![5nat, 19nat, 271nat][0] * product(seq![5nat, 19nat, 271nat].drop_first()));
        assert(product(seq![5nat, 19nat, 271nat]) == 25745nat);
        assert(seq![3nat, 5nat, 19nat, 271nat].len() == 4 && seq![3nat, 5nat, 19nat, 271nat][0] == 3nat);
        assert(seq![3nat, 5nat, 19nat, 271nat].drop_first() =~= seq![5nat, 19nat, 271nat]);
        assert(product(seq![3nat, 5nat, 19nat, 271nat].drop_first()) == 25745nat);
        assert(product(seq![3nat, 5nat, 19nat, 271nat]) == seq![3nat, 5nat, 19nat, 271nat][0] * product(seq![3nat, 5nat, 19nat, 271nat].drop_first()));
        assert(product(seq![3nat, 5nat, 19nat, 271nat]) == 77235nat);
        assert(seq![3nat, 3nat, 5nat, 19nat, 271nat].len() == 5 && seq![3nat, 3nat, 5nat, 19nat, 271nat][0] == 3nat);
        assert(seq![3nat, 3nat, 5nat, 19nat, 271nat].drop_first() =~= seq![3nat, 5nat, 19nat, 271nat]);
        assert(product(seq![3nat, 3nat, 5nat, 19nat, 271nat].drop_first()) == 77235nat);
        assert(product(seq![3nat, 3nat, 5nat, 19nat, 271nat]) == seq![3nat, 3nat, 5nat, 19nat, 271nat][0] * product(seq![3nat, 3nat, 5nat, 19nat, 271nat].drop_first()));
        assert(product(seq![3nat, 3nat, 5nat, 19nat, 271nat]) == 231705nat);
        assert(seq![2nat, 3nat, 3nat, 5nat, 19nat, 271nat].len() == 6 && seq![2nat, 3nat, 3nat, 5nat, 19nat, 271nat][0] == 2nat);
        assert(seq![2nat, 3nat, 3nat, 5nat, 19nat, 271nat].drop_first() =~= seq![3nat, 3nat, 5nat, 19nat, 271nat]);
        assert(product(seq![2nat, 3nat, 3nat, 5nat, 19nat, 271nat].drop_first()) == 231705nat);
        assert(product(seq![2nat, 3nat, 3nat, 5nat, 19nat, 271nat]) == seq![2nat, 3nat, 3nat, 5nat, 19nat, 271nat][0] * product(seq![2nat, 3nat, 3nat, 5nat, 19nat, 271nat].drop_first()));
        assert(product(seq![2nat, 3nat, 3nat, 5nat, 19nat, 271nat]) == 463410nat);
        assert(seq![2nat, 2nat, 3nat, 3nat, 5nat, 19nat, 271nat].len() == 7 && seq![2nat, 2nat, 3nat, 3nat, 5nat, 19nat, 271nat][0] == 2nat);
        assert(seq![2nat, 2nat, 3nat, 3nat, 5nat, 19nat, 271nat].drop_first() =~= seq![2nat, 3nat, 3nat, 5nat, 19nat, 271nat]);
        assert(product(seq![2nat, 2nat, 3nat, 3nat, 5nat, 19nat, 271nat].drop_first()) == 463410nat);
        assert(product(seq![2nat, 2nat, 3nat, 3nat, 5nat, 19nat, 271nat]) == seq![2nat, 2nat, 3nat, 3nat, 5nat, 19nat, 271nat][0] * product(seq![2nat, 2nat, 3nat, 3nat, 5nat, 19nat, 271nat].drop_first()));
        assert(product(seq![2nat, 2nat, 3nat, 3nat, 5nat, 19nat, 271nat]) == 926820nat);
        assert(seq![2nat, 2nat, 2nat, 3nat, 3nat, 5nat, 19nat, 271nat].len() == 8 && seq![2nat, 2nat, 2nat, 3nat, 3nat, 5nat, 19nat, 271nat][0] == 2nat);
        assert(seq![2nat, 2nat, 2nat, 3nat, 3nat, 5nat, 19nat, 271nat].drop_first() =~= seq![2nat, 2nat, 3nat, 3nat, 5nat, 19nat, 271nat]);
        assert(product(seq![2nat, 2nat, 2nat, 3nat, 3nat, 5nat, 19nat, 271nat].drop_first()) == 926820nat);
        assert(product(seq![2nat, 2nat, 2nat, 3nat, 3nat, 5nat, 19nat, 271nat]) == seq![2nat, 2nat, 2nat, 3nat, 3nat, 5nat, 19nat, 271nat][0] * product(seq![2nat, 2nat, 2nat, 3nat, 3nat, 5nat, 19nat, 271nat].drop_first()));
        assert(product(seq![2nat, 2nat, 2nat, 3nat, 3nat, 5nat, 19nat, 271nat]) == 1853640nat);
    }
    assert forall|i: int| 0 <= i < fs.len() implies mod_pow(17, ((1853640nat) / fs[i]) as nat, 1853641) != 1 && is_prime(#[trigger] fs[i]) by {
        if i == 0 {
            assert(fs[i] == 2);
            lemma_fundamental_div_mod_converse(1853640int, 2int, 926820int, 0int);
        } else if i == 1 {
            assert(fs[i] == 2);
            lemma_fundamental_div_mod_converse(1853640int, 2int, 926820int, 0int);
        } else if i == 2 {
            assert(fs[i] == 2);
            lemma_fundamental_div_mod_converse(1853640int, 2int, 926820int, 0int);
        } else if i == 3 {
            assert(fs[i] == 3);
            lemma_fundamental_div_mod_converse(1853640int, 3int, 617880int, 0int);
        } else if i == 4 {
            assert(fs[i] == 3);
            lemma_fundamental_div_mod_converse(1853640int, 3int, 617880int, 0int);
        } else if i == 5 {
            assert(fs[i] == 5);
            lemma_fundamental_div_mod_converse(1853640int, 5int, 370728int, 0int);
        } else if i == 6 {
            assert(fs[i] == 19);
            lemma_fundamental_div_mod_converse(1853640int, 19int, 97560int, 0int);
        } else if i == 7 {
            assert(fs[i] == 271);
            lemma_fundamental_div_mod_converse(1853640int, 271int, 6840int, 0int);
        }
    }
}

/// 1853641 is prime.
pub proof fn lemma_prime_1853641()
    ensures
        is_prime(1853641),
{
    lemma_witness_1853641();
    lemma_pratt_prime(1853641, 17, seq![2nat, 2nat, 2nat, 3nat, 3nat, 5nat, 19nat, 271nat]);
}

pub proof fn lemma_pow_4562087_full()
    ensures
        mod_pow(5, 4562086, 4562087) == 1,
{
    let m = 4562087int;
    lemma_fundamental_div_mod_converse(1, m, 0, 1);
    assert(mod_pow(5, 0, 4562087) == 1);
    lemma_fundamental_div_mod_converse(1int * 1int, m, 0int, 1int);
    lemma_fundamental_div_mod_converse(1int * 5, m, 0int, 5int);
    assert(mod_pow(5, 1, 4562087) == 5);
    lemma_fundamental_div_mod_converse(5int * 5int, m, 0int, 25int);
    assert(mod_pow(5, 2, 4562087) == 25);
    lemma_fundamental_div_mod_converse(25int * 25int, m, 0int, 625int);
    assert(mod_pow(5, 4, 4562087) == 625);
    lemma_fundamental_div_mod_converse(625int * 625int, m, 0int, 390625int);
    assert(mod_pow(5, 8, 4562087) == 390625);
    lemma_fundamental_div_mod_converse(390625int * 390625int, m, 33446int, 4328823int);
    lemma_fundamental_div_mod_converse(4328823int * 5, m, 4int, 3395767int);
    assert(mod_pow(5, 17, 4562087) == 3395767);
    lemma_fundamental_div_mod_converse(3395767int * 3395767int, m, 2527622int, 2051175int);
    assert(mod_pow(5, 34, 4562087) == 2051175);
    lemma_fundamental_div_mod_converse(2051175int * 2051175int, m, 922235int, 2576180int);
    lemma_fundamental_div_mod_converse(2576180int * 5, m, 2int, 3756726int);
    assert(mod_pow(5, 69, 4562087) == 3756726);
    lemma_fundamental_div_mod_converse(3756726int * 3756726int, m, 3093538int, 745270int);
    lemma_fundamental_div_mod_converse(745270int * 5, m, 0int, 3726350int);
    assert(mod_pow(5, 139, 4562087) == 3726350);
    lemma_fundamental_div_mod_converse(3726350int * 3726350int, m, 3043713int, 813469int);
    assert(mod_pow(5, 278, 4562087) == 813469);
    lemma_fundamental_div_mod_converse(813469int * 813469int, m, 145050int, 1094611int);
    assert(mod_pow(5, 556, 4562087) == 1094611);
    lemma_fundamental_div_mod_converse(1094611int * 1094611int, m, 262637int, 397902int);
    lemma_fundamental_div_mod_converse(397902int * 5, m, 0int, 1989510int);
    assert(mod_pow(5, 1113, 4562087) == 1989510);
    lemma_fundamental_div_mod_converse(1989510int * 1989510int, m, 867618int, 1241334int);
    lemma_fundamental_div_mod_converse(1241334int * 5, m, 1int, 1644583int);
    assert(mod_pow(5, 2227, 4562087) == 1644583);
    lemma_fundamental_div_mod_converse(1644583int * 1644583int, m, 592854int, 1717591int);
    lemma_fundamental_div_mod_converse(1717591int * 5, m, 1int, 4025868int);
    assert(mod_pow(5, 4455, 4562087) == 4025868);
    lemma_fundamental_div_mod_converse(4025868int * 4025868int, m, 3552675int, 720699int);
    assert(mod_pow(5, 8910, 4562087) == 720699);
    lemma_fundamental_div_mod_converse(720699int * 720699int, m, 113852int, 4319477int);
    assert(mod_pow(5, 17820, 4562087) == 4319477);
    lemma_fundamental_div_mod_converse(4319477int * 4319477int, m, 4089768int, 4127713int);
    lemma_fundamental_div_mod_converse(4127713int * 5, m, 4int, 2390217int);
    assert(mod_pow(5, 35641, 4562087) == 2390217);
    lemma_fundamental_div_mod_converse(2390217int * 2390217int, m, 1252307int, 3822380int);
    assert(mod_pow(5, 71282, 4562087) == 3822380);
    lemma_fundamental_div_mod_converse(3822380int * 3822380int, m, 3202610int, 3417330int);
    lemma_fundamental_div_mod_converse(3417330int * 5, m, 3int, 3400389int);
    assert(mod_pow(5, 142565, 4562087) == 3400389);
    lemma_fundamental_div_mod_converse(3400389int * 3400389int, m, 2534507int, 3915212int);
    assert(mod_pow(5, 285130, 4562087) == 3915212);
    lemma_fundamental_div_mod_converse(3915212int * 3915212int, m, 3360059int, 3521811int);
    assert(mod_pow(5, 570260, 4562087) == 3521811);
    lemma_fundamental_div_mod_converse(3521811int * 3521811int, m, 2718745int, 1498906int);
    lemma_fundamental_div_mod_converse(1498906int * 5, m, 1int, 2932443int);
    assert(mod_pow(5, 1140521, 4562087) == 2932443);
    lemma_fundamental_div_mod_converse(2932443int * 2932443int, m, 1884931int, 2737252int);
    lemma_fundamental_div_mod_converse(2737252int * 5, m, 2int, 4562086int);
    assert(mod_pow(5, 2281043, 4562087) == 4562086);
    lemma_fundamental_div_mod_converse(4562086int * 4562086int, m, 4562085int, 1int);
    assert(mod_pow(5, 4562086, 4562087) == 1);
}

pub proof fn lemma_pow_4562087_by_2()
    ensures
        mod_pow(5, 2281043, 4562087) == 4562086,
{
    let m = 4562087int;
    lemma_fundamental_div_mod_converse(1, m, 0, 1);
    assert(mod_pow(5, 0, 4562087) == 1);
    lemma_fundamental_div_mod_converse(1int * 1int, m, 0int, 1int);
    lemma_fundamental_div_mod_converse(1int * 5, m, 0int, 5int);
    assert(mod_pow(5, 1, 4562087) == 5);
    lemma_fundamental_div_mod_converse(5int * 5int, m, 0int, 25int);
    assert(mod_pow(5, 2, 4562087) == 25);
    lemma_fundamental_div_mod_converse(25int * 25int, m, 0int, 625int);
    assert(mod_pow(5, 4, 4562087) == 625);
    lemma_fundamental_div_mod_converse(625int * 625int, m, 0int, 390625int);
    assert(mod_pow(5, 8, 4562087) == 390625);
    lemma_fundamental_div_mod_converse(390625int * 390625int, m, 33446int, 4328823int);
    lemma_fundamental_div_mod_converse(4328823int * 5, m, 4int, 3395767int);
    assert(mod_pow(5, 17, 4562087) == 3395767);
    lemma_fundamental_div_mod_converse(3395767int * 3395767int, m, 2527622int, 2051175int);
    assert(mod_pow(5, 34, 4562087) == 2051175);
    lemma_fundamental_div_mod_converse(2051175int * 2051175int, m, 922235int, 2576180int);
    lemma_fundamental_div_mod_converse(2576180int * 5, m, 2int, 3756726int);
    assert(mod_pow(5, 69, 4562087) == 3756726);
    lemma_fundamental_div_mod_converse(3756726int * 3756726int, m, 3093538int, 745270int);
    lemma_fundamental_div_mod_converse(745270int * 5, m, 0int, 3726350int);
    assert(mod_pow(5, 139, 4562087) == 3726350);
    lemma_fundamental_div_mod_converse(3726350int * 3726350int, m, 3043713int, 813469int);
    assert(mod_pow(5, 278, 4562087) == 813469);
    lemma_fundamental_div_mod_converse(813469int * 813469int, m, 145050int, 1094611int);
    assert(mod_pow(5, 556, 4562087) == 1094611);
    lemma_fundamental_div_mod_converse(1094611int * 1094611int, m, 262637int, 397902int);
    lemma_fundamental_div_mod_converse(397902int * 5, m, 0int, 1989510int);
    assert(mod_pow(5, 1113, 4562087) == 1989510);
    lemma_fundamental_div_mod_converse(1989510int * 1989510int, m, 867618int, 1241334int);
    lemma_fundamental_div_mod_converse(1241334int * 5, m, 1int, 1644583int);
    assert(mod_pow(5, 2227, 4562087) == 1644583);
    lemma_fundamental_div_mod_converse(1644583int * 1644583int, m, 592854int, 1717591int);
    lemma_fundamental_div_mod_converse(1717591int * 5, m, 1int, 4025868int);
    assert(mod_pow(5, 4455, 4562087) == 4025868);
    lemma_fundamental_div_mod_converse(4025868int * 4025868int, m, 3552675int, 720699int);
    assert(mod_pow(5, 8910, 4562087) == 720699);
    lemma_fundamental_div_mod_converse(720699int * 720699int, m, 113852int, 4319477int);
    assert(mod_pow(5, 17820, 4562087) == 4319477);
    lemma_fundamental_div_mod_converse(4319477int * 4319477int, m, 4089768int, 4127713int);
    lemma_fundamental_div_mod_converse(4127713int * 5, m, 4int, 2390217int);
    assert(mod_pow(5, 35641, 4562087) == 2390217);
    lemma_fundamental_div_mod_converse(2390217int * 2390217int, m, 1252307int, 3822380int);
    assert(mod_pow(5, 71282, 4562087) == 3822380);
    lemma_fundamental_div_mod_converse(3822380int * 3822380int, m, 3202610int, 3417330int);
    lemma_fundamental_div_mod_converse(3417330int * 5, m, 3int, 3400389int);
    assert(mod_pow(5, 142565, 4562087) == 3400389);
    lemma_fundamental_div_mod_converse(3400389int * 3400389int, m, 2534507int, 3915212int);
    assert(mod_pow(5, 285130, 4562087) == 3915212);
    lemma_fundamental_div_mod_converse(3915212int * 3915212int, m, 3360059int, 3521811int);
    assert(mod_pow(5, 570260, 4562087) == 3521811);
    lemma_fundamental_div_mod_converse(3521811int * 3521811int, m, 2718745int, 1498906int);
    lemma_fundamental_div_mod_converse(1498906int * 5, m, 1int, 2932443int);
    assert(mod_pow(5, 1140521, 4562087) == 2932443);
    lemma_fundamental_div_mod_converse(2932443int * 2932443int, m, 1884931int, 2737252int);
    lemma_fundamental_div_mod_converse(2737252int * 5, m, 2int, 4562086int);
    assert(mod_pow(5, 2281043, 4562087) == 4562086);
}

pub proof fn lemma_pow_4562087_by_17()
    ensures
        mod_pow(5, 268358, 4562087) == 476158,
{
    let m = 4562087int;
    lemma_fundamental_div_mod_converse(1, m, 0, 1);
    assert(mod_pow(5, 0, 4562087) == 1);
    lemma_fundamental_div_mod_converse(1int * 1int, m, 0int, 1int);
    lemma_fundamental_div_mod_converse(1int * 5, m, 0int, 5int);
    assert(mod_pow(5, 1, 4562087) == 5);
    lemma_fundamental_div_mod_converse(5int * 5int, m, 0int, 25int);
    assert(mod_pow(5, 2, 4562087) == 25);
    lemma_fundamental_div_mod_converse(25int * 25int, m, 0int, 625int);
    assert(mod_pow(5, 4, 4562087) == 625);
    lemma_fundamental_div_mod_converse(625int * 625int, m, 0int, 390625int);
    assert(mod_pow(5, 8, 4562087) == 390625);
    lemma_fundamental_div_mod_converse(390625int * 390625int, m, 33446int, 4328823int);
    assert(mod_pow(5, 16, 4562087) == 4328823);
    lemma_fundamental_div_mod_converse(4328823int * 4328823int, m, 4107486int, 82047int);
    assert(mod_pow(5, 32, 4562087) == 82047);
    lemma_fundamental_div_mod_converse(82047int * 82047int, m, 1475int, 2631884int);
    lemma_fundamental_div_mod_converse(2631884int * 5, m, 2int, 4035246int);
    assert(mod_pow(5, 65, 4562087) == 4035246);
    lemma_fundamental_div_mod_converse(4035246int * 4035246int, m, 3569245int, 4066201int);
    lemma_fundamental_div_mod_converse(4066201int * 5, m, 4int, 2082657int);
    assert(mod_pow(5, 131, 4562087) == 2082657);
    lemma_fundamental_div_mod_converse(2082657int * 2082657int, m, 950762int, 1219355int);
    assert(mod_pow(5, 262, 4562087) == 1219355);
    lemma_fundamental_div_mod_converse(1219355int * 1219355int, m, 325909int, 1403942int);
    assert(mod_pow(5, 524, 4562087) == 1403942);
    lemma_fundamental_div_mod_converse(1403942int * 1403942int, m, 432050int, 3451014int);
    assert(mod_pow(5, 1048, 4562087) == 3451014);
    lemma_fundamental_div_mod_converse(3451014int * 3451014int, m, 2610537int, 717477int);
    assert(mod_pow(5, 2096, 4562087) == 717477);
    lemma_fundamental_div_mod_converse(717477int * 717477int, m, 112837int, 1034710int);
    lemma_fundamental_div_mod_converse(1034710int * 5, m, 1int, 611463int);
    assert(mod_pow(5, 4193, 4562087) == 611463);
    lemma_fundamental_div_mod_converse(611463int * 611463int, m, 81955int, 1160284int);
    assert(mod_pow(5, 8386, 4562087) == 1160284);
    lemma_fundamental_div_mod_converse(1160284int * 1160284int, m, 295097int, 773217int);
    assert(mod_pow(5, 16772, 4562087) == 773217);
    lemma_fundamental_div_mod_converse(773217int * 773217int, m, 131050int, 3027739int);
    assert(mod_pow(5, 33544, 4562087) == 3027739);
    lemma_fundamental_div_mod_converse(3027739int * 3027739int, m, 2009431int, 4409624int);
    lemma_fundamental_div_mod_converse(4409624int * 5, m, 4int, 3799772int);
    assert(mod_pow(5, 67089, 4562087) == 3799772);
    lemma_fundamental_div_mod_converse(3799772int * 3799772int, m, 3164838int, 955078int);
    lemma_fundamental_div_mod_converse(955078int * 5, m, 1int, 213303int);
    assert(mod_pow(5, 134179, 4562087) == 213303);
    lemma_fundamental_div_mod_converse(213303int * 213303int, m, 9973int, 476158int);
    assert(mod_pow(5, 268358, 4562087) == 476158);
}

pub proof fn lemma_pow_4562087_by_109()
    ensures
        mod_pow(5, 41854, 4562087) == 2845343,
{
    let m = 4562087int;
    lemma_fundamental_div_mod_converse(1, m, 0, 1);
    assert(mod_pow(5, 0, 4562087) == 1);
    lemma_fundamental_div_mod_converse(1int * 1int, m, 0int, 1int);
    lemma_fundamental_div_mod_converse(1int * 5, m, 0int, 5int);
    assert(mod_pow(5, 1, 4562087) == 5);
    lemma_fundamental_div_mod_converse(5int * 5int, m, 0int, 25int);
    assert(mod_pow(5, 2, 4562087) == 25);
    lemma_fundamental_div_mod_converse(25int * 25int, m, 0int, 625int);
    lemma_fundamental_div_mod_converse(625int * 5, m, 0int, 3125int);
    assert(mod_pow(5, 5, 4562087) == 3125);
    lemma_fundamental_div_mod_converse(3125int * 3125int, m, 2int, 641451int);
    assert(mod_pow(5, 10, 4562087) == 641451);
    lemma_fundamental_div_mod_converse(641451int * 641451int, m, 90191int, 196784int);
    assert(mod_pow(5, 20, 4562087) == 196784);
    lemma_fundamental_div_mod_converse(196784int * 196784int, m, 8488int, 948200int);
    assert(mod_pow(5, 40, 4562087) == 948200);
    lemma_fundamental_div_mod_converse(948200int * 948200int, m, 197077int, 820301int);
    lemma_fundamental_div_mod_converse(820301int * 5, m, 0int, 4101505int);
    assert(mod_pow(5, 81, 4562087) == 4101505);
    lemma_fundamental_div_mod_converse(4101505int * 4101505int, m, 3687422int, 3295311int);
    lemma_fundamental_div_mod_converse(3295311int * 5, m, 3int, 2790294int);
    assert(mod_pow(5, 163, 4562087) == 2790294);
    lemma_fundamental_div_mod_converse(2790294int * 2790294int, m, 1706618int, 814670int);
    assert(mod_pow(5, 326, 4562087) == 814670);
    lemma_fundamental_div_mod_converse(814670int * 814670int, m, 145478int, 3916314int);
    lemma_fundamental_div_mod_converse(3916314int * 5, m, 4int, 1333222int);
    assert(mod_pow(5, 653, 4562087) == 1333222);
    lemma_fundamental_div_mod_converse(1333222int * 1333222int, m, 389620int, 564344int);
    lemma_fundamental_div_mod_converse(564344int * 5, m, 0int, 2821720int);
    assert(mod_pow(5, 1307, 4562087) == 2821720);
    lemma_fundamental_div_mod_converse(2821720int * 2821720int, m, 1745276int, 2807388int);
    lemma_fundamental_div_mod_converse(2807388int * 5, m, 3int, 350679int);
    assert(mod_pow(5, 2615, 4562087) == 350679);
    lemma_fundamental_div_mod_converse(350679int * 350679int, m, 26956int, 143869int);
    lemma_fundamental_div_mod_converse(143869int * 5, m, 0int, 719345int);
    assert(mod_pow(5, 5231, 4562087) == 719345);
    lemma_fundamental_div_mod_converse(719345int * 719345int, m, 113425int, 2511050int);
    lemma_fundamental_div_mod_converse(2511050int * 5, m, 2int, 3431076int);
    assert(mod_pow(5, 10463, 4562087) == 3431076);
    lemma_fundamental_div_mod_converse(3431076int * 3431076int, m, 2580459int, 4059843int);
    lemma_fundamental_div_mod_converse(4059843int * 5, m, 4int, 2050867int);
    assert(mod_pow(5, 20927, 4562087) == 2050867);
    lemma_fundamental_div_mod_converse(2050867int * 2050867int, m, 921958int, 2845343int);
    assert(mod_pow(5, 41854, 4562087) == 2845343);
}

pub proof fn lemma_pow_4562087_by_1231()
    ensures
        mod_pow(5, 3706, 4562087) == 4407835,
{
    let m = 4562087int;
    lemma_fundamental_div_mod_converse(1, m, 0, 1);
    assert(mod_pow(5, 0, 4562087) == 1);
    lemma_fundamental_div_mod_converse(1int * 1int, m, 0int, 1int);
    lemma_fundamental_div_mod_converse(1int * 5, m, 0int, 5int);
    assert(mod_pow(5, 1, 4562087) == 5);
    lemma_fundamental_div_mod_converse(5int * 5int, m, 0int, 25int);
    lemma_fundamental_div_mod_converse(25int * 5, m, 0int, 125int);
    assert(mod_pow(5, 3, 4562087) == 125);
    lemma_fundamental_div_mod_converse(125int * 125int, m, 0int, 15625int);
    lemma_fundamental_div_mod_converse(15625int * 5, m, 0int, 78125int);
    assert(mod_pow(5, 7, 4562087) == 78125);
    lemma_fundamental_div_mod_converse(78125int * 78125int, m, 1337int, 4005306int);
    assert(mod_pow(5, 14, 4562087) == 4005306);
    lemma_fundamental_div_mod_converse(4005306int * 4005306int, m, 3516477int, 2146137int);
    assert(mod_pow(5, 28, 4562087) == 2146137);
    lemma_fundamental_div_mod_converse(2146137int * 2146137int, m, 1009604int, 2739221int);
    lemma_fundamental_div_mod_converse(2739221int * 5, m, 3int, 9844int);
    assert(mod_pow(5, 57, 4562087) == 9844);
    lemma_fundamental_div_mod_converse(9844int * 9844int, m, 21int, 1100509int);
    lemma_fundamental_div_mod_converse(1100509int * 5, m, 1int, 940458int);
    assert(mod_pow(5, 115, 4562087) == 940458);
    lemma_fundamental_div_mod_converse(940458int * 940458int, m, 193872int, 318900int);
    lemma_fundamental_div_mod_converse(318900int * 5, m, 0int, 1594500int);
    assert(mod_pow(5, 231, 4562087) == 1594500);
    lemma_fundamental_div_mod_converse(1594500int * 1594500int, m, 557295int, 1975335int);
    lemma_fundamental_div_mod_converse(1975335int * 5, m, 2int, 752501int);
    assert(mod_pow(5, 463, 4562087) == 752501);
    lemma_fundamental_div_mod_converse(752501int * 752501int, m, 124122int, 2392387int);
    assert(mod_pow(5, 926, 4562087) == 2392387);
    lemma_fundamental_div_mod_converse(2392387int * 2392387int, m, 1254582int, 3325135int);
    lemma_fundamental_div_mod_converse(3325135int * 5, m, 3int, 2939414int);
    assert(mod_pow(5, 1853, 4562087) == 2939414);
    lemma_fundamental_div_mod_converse(2939414int * 2939414int, m, 1893903int, 4407835int);
    assert(mod_pow(5, 3706, 4562087) == 4407835);
}

/// A Lucas–Pratt witness for 4562087: generator 5, and n - 1 = 2 * 17 * 109 * 1231.
pub proof fn lemma_witness_4562087()
    ensures
        pratt_witness(4562087, 5, seq![2nat, 17nat, 109nat, 1231nat]),
{
    lemma_prime_17();
    lemma_prime_109();
    lemma_prime_1231();
    lemma_pow_4562087_full();
    lemma_pow_4562087_by_2();
    lemma_pow_4562087_by_17();
    lemma_pow_4562087_by_109();
    lemma_pow_4562087_by_1231();
    let fs = seq![2nat, 17nat, 109nat, 1231nat];
    assert(product(fs) == 4562086nat) by {
        assert(product(Seq::<nat>::empty()) == 1);
        assert(seq![1231nat].len() == 1 && seq![1231nat][0] == 1231nat);
        assert(seq![1231nat].drop_first() =~= Seq::<nat>::empty());
        assert(product(seq![1231nat].drop_first()) == 1nat);
        assert(product(seq![1231nat]) == seq![1231nat][0] * product(seq![1231nat].drop_first()));
        assert(product(seq![1231nat]) == 1231nat);
        assert(seq![109nat, 1231nat].len() == 2 && seq![109nat, 1231nat][0] == 109nat);
        assert(seq![109nat, 1231nat].drop_first() =~= seq![1231nat]);
        assert(product(seq![109nat, 1231nat].drop_first()) == 1231nat);
        assert(product(seq![109nat, 1231nat]) == seq![109nat, 1231nat][0] * product(seq![109nat, 1231nat].drop_first()));
        assert(product(seq![109nat, 1231nat]) == 134179nat);
        assert(seq![17nat, 109nat, 1231nat].len() == 3 && seq![17nat, 109nat, 1231nat][0] == 17nat);
        assert(seq![17nat, 109nat, 1231nat].drop_first() =~= seq![109nat, 1231nat]);
        assert(product(seq![17nat, 109nat, 1231nat].drop_first()) == 134179nat);
        assert(product(seq![17nat, 109nat, 1231nat]) == seq![17nat, 109nat, 1231nat][0] * product(seq![17nat, 109nat, 1231nat].drop_first()));
        assert(product(seq![17nat, 109nat, 1231nat]) == 2281043nat);
        assert(seq![2nat, 17nat, 109nat, 1231nat].len() == 4 && seq![2nat, 17nat, 109nat, 1231nat][0] == 2nat);
        assert(seq![2nat, 17nat, 109nat, 1231nat].drop_first() =~= seq![17nat, 109nat, 1231nat]);
        assert(product(seq![2nat, 17nat, 109nat, 1231nat].drop_first()) == 2281043nat);
        assert(product(seq![2nat, 17nat, 109nat, 1231nat]) == seq![2nat, 17nat, 109nat, 1231nat][0] * product(seq![2nat, 17nat, 109nat, 1231nat].drop_first()));
        assert(product(seq![2nat, 17nat, 109nat, 1231nat]) == 4562086nat);
    }
    assert forall|i: int| 0 <= i < fs.len() implies mod_pow(5, ((4562086nat) / fs[i]) as nat, 4562087) != 1 && is_prime(#[trigger] fs[i]) by {
        if i == 0 {
            assert(fs[i] == 2);
            lemma_fundamental_div_mod_converse(4562086int, 2int, 2281043int, 0int);
        } else if i == 1 {
            assert(fs[i] == 17);
            lemma_fundamental_div_mod_converse(4562086int, 17int, 268358int, 0int);
        } else if i == 2 {
            assert(fs[i] == 109);
            lemma_fundamental_div_mod_converse(4562086int, 109int, 41854int, 0int);
        } else if i == 3 {
            assert(fs[i] == 1231);
            lemma_fundamental_div_mod_converse(4562086int, 1231int, 3706int, 0int);
        }
    }
}

/// 4562087 is prime.
pub proof fn lemma_prime_4562087()
    ensures
        is_prime(4562087),
{
    lemma_witness_4562087();
    lemma_pratt_prime(4562087, 5, seq![2nat, 17nat, 109nat, 1231nat]);
}

pub proof fn lemma_pow_173171039_full()
    ensures
        mod_pow(13, 173171038, 173171039) == 1,
{
    let m = 173171039int;
    lemma_fundamental_div_mod_converse(1, m, 0, 1);
    assert(mod_pow(13, 0, 173171039) == 1);
    lemma_fundamental_div_mod_converse(1int * 1int, m, 0int, 1int);
    lemma_fundamental_div_mod_converse(1int * 13, m, 0int, 13int);
    assert(mod_pow(13, 1, 173171039) == 13);
    lemma_fundamental_div_mod_converse(13int * 13int, m, 0int, 169int);
    assert(mod_pow(13, 2, 173171039) == 169);
    lemma_fundamental_div_mod_converse(169int * 169int, m, 0int, 28561int);
    lemma_fundamental_div_mod_converse(28561int * 13, m, 0int, 371293int);
    assert(mod_pow(13, 5, 173171039) == 371293);
    lemma_fundamental_div_mod_converse(371293int * 371293int, m, 796int, 14344805int);
    assert(mod_pow(13, 10, 173171039) == 14344805);
    lemma_fundamental_div_mod_converse(14344805int * 14344805int, m, 1188266int, 172659651int);
    assert(mod_pow(13, 20, 173171039) == 172659651);
    lemma_fundamental_div_mod_converse(172659651int * 172659651int, m, 172149773int, 29417654int);
    lemma_fundamental_div_mod_converse(29417654int * 13, m, 2int, 36087424int);
    assert(mod_pow(13, 41, 173171039) == 36087424);
    lemma_fundamental_div_mod_converse(36087424int * 36087424int, m, 7520323int, 23430179int);
    assert(mod_pow(13, 82, 173171039) == 23430179);
    lemma_fundamental_div_mod_converse(23430179int * 23430179int, m, 3170121int, 140646322int);
    lemma_fundamental_div_mod_converse(140646322int * 13, m, 10int, 96691796int);
    assert(mod_pow(13, 165, 173171039) == 96691796);
    lemma_fundamental_div_mod_converse(96691796int * 96691796int, m, 53988839int, 69671895int);
    assert(mod_pow(13, 330, 173171039) == 69671895);
    lemma_fundamental_div_mod_converse(69671895int * 69671895int, m, 28031089int, 146459554int);
    assert(mod_pow(13, 660, 173171039) == 146459554);
    lemma_fundamental_div_mod_converse(146459554int * 146459554int, m, 123868292int, 133083528int);
    lemma_fundamental_div_mod_converse(133083528int * 13, m, 9int, 171546513int);
    assert(mod_pow(13, 1321, 173171039) == 171546513);
    lemma_fundamental_div_mod_converse(171546513int * 171546513int, m, 169937226int, 131261355int);
    assert(mod_pow(13, 2642, 173171039) == 131261355);
    lemma_fundamental_div_mod_converse(131261355int * 131261355int, m, 99494369int, 62056634int);
    assert(mod_pow(13, 5284, 173171039) == 62056634);
    lemma_fundamental_div_mod_converse(62056634int * 62056634int, m, 22238278int, 116579114int);
    lemma_fundamental_div_mod_converse(116579114int * 13, m, 8int, 130160170int);
    assert(mod_pow(13, 10569, 173171039) == 130160170);
    lemma_fundamental_div_mod_converse(130160170int * 130160170int, m, 97832004int, 74296744int);
    lemma_fundamental_div_mod_converse(74296744int * 13, m, 5int, 100002477int);
    assert(mod_pow(13, 21139, 173171039) == 100002477);
    lemma_fundamental_div_mod_converse(100002477int * 100002477int, m, 57749237int, 33388286int);
    assert(mod_pow(13, 42278, 173171039) == 33388286);
    lemma_fundamental_div_mod_converse(33388286int * 33388286int, m, 6437436int, 161401792int);
    assert(mod_pow(13, 84556, 173171039) == 161401792);
    lemma_fundamental_div_mod_converse(161401792int * 161401792int, m, 150432419int, 163297923int);
    assert(mod_pow(13, 169112, 173171039) == 163297923);
    lemma_fundamental_div_mod_converse(163297923int * 163297923int, m, 153987709int, 95354278int);
    assert(mod_pow(13, 338224, 173171039) == 95354278);
    lemma_fundamental_div_mod_converse(95354278int * 95354278int, m, 52505536int, 110529380int);
    lemma_fundamental_div_mod_converse(110529380int * 13, m, 8int, 51513628int);
    assert(mod_pow(13, 676449, 173171039) == 51513628);
    lemma_fundamental_div_mod_converse(51513628int * 51513628int, m, 15323889int, 90071713int);
    assert(mod_pow(13, 1352898, 173171039) == 90071713);
    lemma_fundamental_div_mod_converse(90071713int * 90071713int, m, 46849135int, 98553104int);
    lemma_fundamental_div_mod_converse(98553104int * 13, m, 7int, 68993079int);
    assert(mod_pow(13, 2705797, 173171039) == 68993079);
    lemma_fundamental_div_mod_converse(68993079int * 68993079int, m, 27487534int, 127572415int);
    assert(mod_pow(13, 5411594, 173171039) == 127572415);
    lemma_fundamental_div_mod_converse(127572415int * 127572415int, m, 93980616int, 150352201int);
    lemma_fundamental_div_mod_converse(150352201int * 13, m, 11int, 49697184int);
    assert(mod_pow(13, 10823189, 173171039) == 49697184);
    lemma_fundamental_div_mod_converse(49697184int * 49697184int, m, 14262258int, 61183794int);
    lemma_fundamental_div_mod_converse(61183794int * 13, m, 4int, 102705166int);
    assert(mod_pow(13, 21646379, 173171039) == 102705166);
    lemma_fundamental_div_mod_converse(102705166int * 102705166int, m, 60912905int, 75729261int);
    lemma_fundamental_div_mod_converse(75729261int * 13, m, 5int, 118625198int);
    assert(mod_pow(13, 43292759, 173171039) == 118625198);
    lemma_fundamental_div_mod_converse(118625198int * 118625198int, m, 81260340int, 93245944int);
    lemma_fundamental_div_mod_converse(93245944int * 13, m, 6int, 173171038int);
    assert(mod_pow(13, 86585519, 173171039) == 173171038);
    lemma_fundamental_div_mod_converse(173171038int * 173171038int, m, 173171037int, 1int);
    assert(mod_pow(13, 173171038, 173171039) == 1);
}

pub proof fn lemma_pow_173171039_by_2()
    ensures
        mod_pow(13, 86585519, 173171039) == 173171038,
{
    let m = 173171039int;
    lemma_fundamental_div_mod_converse(1, m, 0, 1);
    assert(mod_pow(13, 0, 173171039) == 1);
    lemma_fundamental_div_mod_converse(1int * 1int, m, 0int, 1int);
    lemma_fundamental_div_mod_converse(1int * 13, m, 0int, 13int);
    assert(mod_pow(13, 1, 173171039) == 13);
    lemma_fundamental_div_mod_converse(13int * 13int, m, 0int, 169int);
    assert(mod_pow(13, 2, 173171039) == 169);
    lemma_fundamental_div_mod_converse(169int * 169int, m, 0int, 28561int);
    lemma_fundamental_div_mod_converse(28561int * 13, m, 0int, 371293int);
    assert(mod_pow(13, 5, 173171039) == 371293);
    lemma_fundamental_div_mod_converse(371293int * 371293int, m, 796int, 14344805int);
    assert(mod_pow(13, 10, 173171039) == 14344805);
    lemma_fundamental_div_mod_converse(14344805int * 14344805int, m, 1188266int, 172659651int);
    assert(mod_pow(13, 20, 173171039) == 172659651);
    lemma_fundamental_div_mod_converse(172659651int * 172659651int, m, 172149773int, 29417654int);
    lemma_fundamental_div_mod_converse(29417654int * 13, m, 2int, 36087424int);
    assert(mod_pow(13, 41, 173171039) == 36087424);
    lemma_fundamental_div_mod_converse(36087424int * 36087424int, m, 7520323int, 23430179int);
    assert(mod_pow(13, 82, 173171039) == 23430179);
    lemma_fundamental_div_mod_converse(23430179int * 23430179int, m, 3170121int, 140646322int);
    lemma_fundamental_div_mod_converse(140646322int * 13, m, 10int, 96691796int);
    assert(mod_pow(13, 165, 173171039) == 96691796);
    lemma_fundamental_div_mod_converse(96691796int * 96691796int, m, 53988839int, 69671895int);
    assert(mod_pow(13, 330, 173171039) == 69671895);
    lemma_fundamental_div_mod_converse(69671895int * 69671895int, m, 28031089int, 146459554int);
    assert(mod_pow(13, 660, 173171039) == 146459554);
    lemma_fundamental_div_mod_converse(146459554int * 146459554int, m, 123868292int, 133083528int);
    lemma_fundamental_div_mod_converse(133083528int * 13, m, 9int, 171546513int);
    assert(mod_pow(13, 1321, 173171039) == 171546513);
    lemma_fundamental_div_mod_converse(171546513int * 171546513int, m, 169937226int, 131261355int);
    assert(mod_pow(13, 2642, 173171039) == 131261355);
    lemma_fundamental_div_mod_converse(131261355int * 131261355int, m, 99494369int, 62056634int);
    assert(mod_pow(13, 5284, 173171039) == 62056634);
    lemma_fundamental_div_mod_converse(62056634int * 62056634int, m, 22238278int, 116579114int);
    lemma_fundamental_div_mod_converse(116579114int * 13, m, 8int, 130160170int);
    assert(mod_pow(13, 10569, 173171039) == 130160170);
    lemma_fundamental_div_mod_converse(130160170int * 130160170int, m, 97832004int, 74296744int);
    lemma_fundamental_div_mod_converse(74296744int * 13, m, 5int, 100002477int);
    assert(mod_pow(13, 21139, 173171039) == 100002477);
    lemma_fundamental_div_mod_converse(100002477int * 100002477int, m, 57749237int, 33388286int);
    assert(mod_pow(13, 42278, 173171039) == 33388286);
    lemma_fundamental_div_mod_converse(33388286int * 33388286int, m, 6437436int, 161401792int);
    assert(mod_pow(13, 84556, 173171039) == 161401792);
    lemma_fundamental_div_mod_converse(161401792int * 161401792int, m, 150432419int, 163297923int);
    assert(mod_pow(13, 169112, 173171039) == 163297923);
    lemma_fundamental_div_mod_converse(163297923int * 163297923int, m, 153987709int, 95354278int);
    assert(mod_pow(13, 338224, 173171039) == 95354278);
    lemma_fundamental_div_mod_converse(95354278int * 95354278int, m, 52505536int, 110529380int);
    lemma_fundamental_div_mod_converse(110529380int * 13, m, 8int, 51513628int);
    assert(mod_pow(13, 676449, 173171039) == 51513628);
    lemma_fundamental_div_mod_converse(51513628int * 51513628int, m, 15323889int, 90071713int);
    assert(mod_pow(13, 1352898, 173171039) == 90071713);
    lemma_fundamental_div_mod_converse(90071713int * 90071713int, m, 46849135int, 98553104int);
    lemma_fundamental_div_mod_converse(98553104int * 13, m, 7int, 68993079int);
    assert(mod_pow(13, 2705797, 173171039) == 68993079);
    lemma_fundamental_div_mod_converse(68993079int * 68993079int, m, 27487534int, 127572415int);
    assert(mod_pow(13, 5411594, 173171039) == 127572415);
    lemma_fundamental_div_mod_converse(127572415int * 127572415int, m, 93980616int, 150352201int);
    lemma_fundamental_div_mod_converse(150352201int * 13, m, 11int, 49697184int);
    assert(mod_pow(13, 10823189, 173171039) == 49697184);
    lemma_fundamental_div_mod_converse(49697184int * 49697184int, m, 14262258int, 61183794int);
    lemma_fundamental_div_mod_converse(61183794int * 13, m, 4int, 102705166int);
    assert(mod_pow(13, 21646379, 173171039) == 102705166);
    lemma_fundamental_div_mod_converse(102705166int * 102705166int, m, 60912905int, 75729261int);
    lemma_fundamental_div_mod_converse(75729261int * 13, m, 5int, 118625198int);
    assert(mod_pow(13, 43292759, 173171039) == 118625198);
    lemma_fundamental_div_mod_converse(118625198int * 118625198int, m, 81260340int, 93245944int);
    lemma_fundamental_div_mod_converse(93245944int * 13, m, 6int, 173171038int);
    assert(mod_pow(13, 86585519, 173171039) == 173171038);
}

pub proof fn lemma_pow_173171039_by_73()
    ensures
        mod_pow(13, 2372206, 173171039) == 152195228,
{
    let m = 173171039int;
    lemma_fundamental_div_mod_converse(1, m, 0, 1);
    assert(mod_pow(13, 0, 173171039) == 1);
    lemma_fundamental_div_mod_converse(1int * 1int, m, 0int, 1int);
    lemma_fundamental_div_mod_converse(1int * 13, m, 0int, 13int);
    assert(mod_pow(13, 1, 173171039) == 13);
    lemma_fundamental_div_mod_converse(13int * 13int, m, 0int, 169int);
    assert(mod_pow(13, 2, 173171039) == 169);
    lemma_fundamental_div_mod_converse(169int * 169int, m, 0int, 28561int);
    assert(mod_pow(13, 4, 173171039) == 28561);
    lemma_fundamental_div_mod_converse(28561int * 28561int, m, 4int, 123046565int);
    lemma_fundamental_div_mod_converse(123046565int * 13, m, 9int, 41065994int);
    assert(mod_pow(13, 9, 173171039) == 41065994);
    lemma_fundamental_div_mod_converse(41065994int * 41065994int, m, 9738440int, 90168876int);
    assert(mod_pow(13, 18, 173171039) == 90168876);
    lemma_fundamental_div_mod_converse(90168876int * 90168876int, m, 46950265int, 27728041int);
    assert(mod_pow(13, 36, 173171039) == 27728041);
    lemma_fundamental_div_mod_converse(27728041int * 27728041int, m, 4439796int, 171429637int);
    assert(mod_pow(13, 72, 173171039) == 171429637);
    lemma_fundamental_div_mod_converse(171429637int * 171429637int, m, 169705746int, 82861675int);
    assert(mod_pow(13, 144, 173171039) == 82861675);
    lemma_fundamental_div_mod_converse(82861675int * 82861675int, m, 39648992int, 43862937int);
    lemma_fundamental_div_mod_converse(43862937int * 13, m, 3int, 50705064int);
    assert(mod_pow(13, 289, 173171039) == 50705064);
    lemma_fundamental_div_mod_converse(50705064int * 50705064int, m, 14846613int, 116403189int);
    lemma_fundamental_div_mod_converse(116403189int * 13, m, 8int, 127873145int);
    assert(mod_pow(13, 579, 173171039) == 127873145);
    lemma_fundamental_div_mod_converse(127873145int * 127873145int, m, 94424225int, 62171250int);
    assert(mod_pow(13, 1158, 173171039) == 62171250);
    lemma_fundamental_div_mod_converse(62171250int * 62171250int, m, 22320500int, 150563000int);
    assert(mod_pow(13, 2316, 173171039) == 150563000);
    lemma_fundamental_div_mod_converse(150563000int * 150563000int, m, 130906513int, 100922993int);
    lemma_fundamental_div_mod_converse(100922993int * 13, m, 7int, 99801636int);
    assert(mod_pow(13, 4633, 173171039) == 99801636);
    lemma_fundamental_div_mod_converse(99801636int * 99801636int, m, 57517507int, 100396723int);
    assert(mod_pow(13, 9266, 173171039) == 100396723);
    lemma_fundamental_div_mod_converse(100396723int * 100396723int, m, 58205471int, 100584360int);
    assert(mod_pow(13, 18532, 173171039) == 100584360);
    lemma_fundamental_div_mod_converse(100584360int * 100584360int, m, 58423241int, 130892201int);
    lemma_fundamental_div_mod_converse(130892201int * 13, m, 9int, 143059262int);
    assert(mod_pow(13, 37065, 173171039) == 143059262);
    lemma_fundamental_div_mod_converse(143059262int * 143059262int, m, 118183459int, 56340743int);
    lemma_fundamental_div_mod_converse(56340743int * 13, m, 4int, 39745503int);
    assert(mod_pow(13, 74131, 173171039) == 39745503);
    lemma_fundamental_div_mod_converse(39745503int * 39745503int, m, 9122224int, 652273int);
    assert(mod_pow(13, 148262, 173171039) == 652273);
    lemma_fundamental_div_mod_converse(652273int * 652273int, m, 2456int, 151994745int);
    lemma_fundamental_div_mod_converse(151994745int * 13, m, 11int, 71050256int);
    assert(mod_pow(13, 296525, 173171039) == 71050256);
    lemma_fundamental_div_mod_converse(71050256int * 71050256int, m, 29151172int, 134357828int);
    lemma_fundamental_div_mod_converse(134357828int * 13, m, 10int, 14941374int);
    assert(mod_pow(13, 593051, 173171039) == 14941374);
    lemma_fundamental_div_mod_converse(14941374int * 14941374int, m, 1289156int, 173054792int);
    lemma_fundamental_div_mod_converse(173054792int * 13, m, 12int, 171659828int);
    assert(mod_pow(13, 1186103, 173171039) == 171659828);
    lemma_fundamental_div_mod_converse(171659828int * 171659828int, m, 170161804int, 152195228int);
    assert(mod_pow(13, 2372206, 173171039) == 152195228);
}

pub proof fn lemma_pow_173171039_by_89()
    ensures
        mod_pow(13, 1945742, 173171039) == 63003907,
{
    let m = 173171039int;
    lemma_fundamental_div_mod_converse(1, m, 0, 1);
    assert(mod_pow(13, 0, 173171039) == 1);
    lemma_fundamental_div_mod_converse(1int * 1int, m, 0int, 1int);
    lemma_fundamental_div_mod_converse(1int * 13, m, 0int, 13int);
    assert(mod_pow(13, 1, 173171039) == 13);
    lemma_fundamental_div_mod_converse(13int * 13int, m, 0int, 169int);
    lemma_fundamental_div_mod_converse(169int * 13, m, 0int, 2197int);
    assert(mod_pow(13, 3, 173171039) == 2197);
    lemma_fundamental_div_mod_converse(2197int * 2197int, m, 0int, 4826809int);
    lemma_fundamental_div_mod_converse(4826809int * 13, m, 0int, 62748517int);
    assert(mod_pow(13, 7, 173171039) == 62748517);
    lemma_fundamental_div_mod_converse(62748517int * 62748517int, m, 22736921int, 152468370int);
    assert(mod_pow(13, 14, 173171039) == 152468370);
    lemma_fundamental_div_mod_converse(152468370int * 152468370int, m, 134240713int, 104146093int);
    lemma_fundamental_div_mod_converse(104146093int * 13, m, 7int, 141701936int);
    assert(mod_pow(13, 29, 173171039) == 141701936);
    lemma_fundamental_div_mod_converse(141701936int * 141701936int, m, 115951482int, 54618298int);
    lemma_fundamental_div_mod_converse(54618298int * 13, m, 4int, 17353718int);
    assert(mod_pow(13, 59, 173171039) == 17353718);
    lemma_fundamental_div_mod_converse(17353718int * 17353718int, m, 1739040int, 164760964int);
    assert(mod_pow(13, 118, 173171039) == 164760964);
    lemma_fundamental_div_mod_converse(164760964int * 164760964int, m, 156759325int, 75020621int);
    lemma_fundamental_div_mod_converse(75020621int * 13, m, 5int, 109412878int);
    assert(mod_pow(13, 237, 173171039) == 109412878);
    lemma_fundamental_div_mod_converse(109412878int * 109412878int, m, 69129214int, 58609538int);
    lemma_fundamental_div_mod_converse(58609538int * 13, m, 4int, 69239838int);
    assert(mod_pow(13, 475, 173171039) == 69239838);
    lemma_fundamental_div_mod_converse(69239838int * 69239838int, m, 27684508int, 151702432int);
    assert(mod_pow(13, 950, 173171039) == 151702432);
    lemma_fundamental_div_mod_converse(151702432int * 151702432int, m, 132895361int, 132064545int);
    assert(mod_pow(13, 1900, 173171039) == 132064545);
    lemma_fundamental_div_mod_converse(132064545int * 132064545int, m, 100715709int, 74905374int);
    assert(mod_pow(13, 3800, 173171039) == 74905374);
    lemma_fundamental_div_mod_converse(74905374int * 74905374int, m, 32400423int, 139130379int);
    assert(mod_pow(13, 7600, 173171039) == 139130379);
    lemma_fundamental_div_mod_converse(139130379int * 139130379int, m, 111781175int, 145292816int);
    lemma_fundamental_div_mod_converse(145292816int * 13, m, 10int, 157096218int);
    assert(mod_pow(13, 15201, 173171039) == 157096218);
    lemma_fundamental_div_mod_converse(157096218int * 157096218int, m, 142513562int, 106772606int);
    assert(mod_pow(13, 30402, 173171039) == 106772606);
    lemma_fundamental_div_mod_converse(106772606int * 106772606int, m, 65833117int, 120532673int);
    assert(mod_pow(13, 60804, 173171039) == 120532673);
    lemma_fundamental_div_mod_converse(120532673int * 120532673int, m, 83894658int, 168115267int);
    assert(mod_pow(13, 121608, 173171039) == 168115267);
    lemma_fundamental_div_mod_converse(168115267int * 168115267int, m, 163207099int, 92475428int);
    lemma_fundamental_div_mod_converse(92475428int * 13, m, 6int, 163154330int);
    assert(mod_pow(13, 243217, 173171039) == 163154330);
    lemma_fundamental_div_mod_converse(163154330int * 163154330int, m, 153717016int, 25049276int);
    lemma_fundamental_div_mod_converse(25049276int * 13, m, 1int, 152469549int);
    assert(mod_pow(13, 486435, 173171039) == 152469549);
    lemma_fundamental_div_mod_converse(152469549int * 152469549int, m, 134242789int, 122875630int);
    lemma_fundamental_div_mod_converse(122875630int * 13, m, 9int, 38843839int);
    assert(mod_pow(13, 972871, 173171039) == 38843839);
    lemma_fundamental_div_mod_converse(38843839int * 38843839int, m, 8713026int, 63003907int);
    assert(mod_pow(13, 1945742, 173171039) == 63003907);
}

pub proof fn lemma_pow_173171039_by_13327()
    ensures
        mod_pow(13, 12994, 173171039) == 102893123,
{
    let m = 173171039int;
    lemma_fundamental_div_mod_converse(1, m, 0, 1);
    assert(mod_pow(13, 0, 173171039) == 1);
    lemma_fundamental_div_mod_converse(1int * 1int, m, 0int, 1int);
    lemma_fundamental_div_mod_converse(1int * 13, m, 0int, 13int);
    assert(mod_pow(13, 1, 173171039) == 13);
    lemma_fundamental_div_mod_converse(13int * 13int, m, 0int, 169int);
    lemma_fundamental_div_mod_converse(169int * 13, m, 0int, 2197int);
    assert(mod_pow(13, 3, 173171039) == 2197);
    lemma_fundamental_div_mod_converse(2197int * 2197int, m, 0int, 4826809int);
    assert(mod_pow(13, 6, 173171039) == 4826809);
    lemma_fundamental_div_mod_converse(4826809int * 4826809int, m, 134537int, 173048538int);
    assert(mod_pow(13, 12, 173171039) == 173048538);
    lemma_fundamental_div_mod_converse(173048538int * 173048538int, m, 172926123int, 113785647int);
    lemma_fundamental_div_mod_converse(113785647int * 13, m, 8int, 93845099int);
    assert(mod_pow(13, 25, 173171039) == 93845099);
    lemma_fundamental_div_mod_converse(93845099int * 93845099int, m, 50856671int, 49168632int);
    assert(mod_pow(13, 50, 173171039) == 49168632);
    lemma_fundamental_div_mod_converse(49168632int * 49168632int, m, 13960500int, 82791924int);
    lemma_fundamental_div_mod_converse(82791924int * 13, m, 6int, 37268778int);
    assert(mod_pow(13, 101, 173171039) == 37268778);
    lemma_fundamental_div_mod_converse(37268778int * 37268778int, m, 8020751int, 29382995int);
    lemma_fundamental_div_mod_converse(29382995int * 13, m, 2int, 35636857int);
    assert(mod_pow(13, 203, 173171039) == 35636857);
    lemma_fundamental_div_mod_converse(35636857int * 35636857int, m, 7333706int, 89097915int);
    assert(mod_pow(13, 406, 173171039) == 89097915);
    lemma_fundamental_div_mod_converse(89097915int * 89097915int, m, 45841605int, 90069630int);
    assert(mod_pow(13, 812, 173171039) == 90069630);
    lemma_fundamental_div_mod_converse(90069630int * 90069630int, m, 46846968int, 125777148int);
    assert(mod_pow(13, 1624, 173171039) == 125777148);
    lemma_fundamental_div_mod_converse(125777148int * 125777148int, m, 91354137int, 137775561int);
    assert(mod_pow(13, 3248, 173171039) == 137775561);
    lemma_fundamental_div_mod_converse(137775561int * 137775561int, m, 109614779int, 39679340int);
    lemma_fundamental_div_mod_converse(39679340int * 13, m, 2int, 169489342int);
    assert(mod_pow(13, 6497, 173171039) == 169489342);
    lemma_fundamental_div_mod_converse(169489342int * 169489342int, m, 165885919int, 102893123int);
    assert(mod_pow(13, 12994, 173171039) == 102893123);
}

/// A Lucas–Pratt witness for 173171039: generator 13, and n - 1 = 2 * 73 * 89 * 13327.
pub proof fn lemma_witness_173171039()
    ensures
        pratt_witness(173171039, 13, seq![2nat, 73nat, 89nat, 13327nat]),
{
    lemma_prime_73();
    lemma_prime_89();
    lemma_prime_13327();
    lemma_pow_173171039_full();
    lemma_pow_173171039_by_2();
    lemma_pow_173171039_by_73();
    lemma_pow_173171039_by_89();
    lemma_pow_173171039_by_13327();
    let fs = seq![2nat, 73nat, 89nat, 13327nat];
    assert(product(fs) == 173171038nat) by {
        assert(product(Seq::<nat>::empty()) == 1);
        assert(seq![13327nat].len() == 1 && seq![13327nat][0] == 13327nat);
        assert(seq![13327nat].drop_first() =~= Seq::<nat>::empty());
        assert(product(seq![13327nat].drop_first()) == 1nat);
        assert(product(seq![13327nat]) == seq![13327nat][0] * product(seq![13327nat].drop_first()));
        assert(product(seq![13327nat]) == 13327nat);
        assert(seq![89nat, 13327nat].len() == 2 && seq![89nat, 13327nat][0] == 89nat);
        assert(seq![89nat, 13327nat].drop_first() =~= seq![13327nat]);
        assert(product(seq![89nat, 13327nat].drop_first()) == 13327nat);
        assert(product(seq![89nat, 13327nat]) == seq![89nat, 13327nat][0] * product(seq![89nat, 13327nat].drop_first()));
        assert(product(seq![89nat, 13327nat]) == 1186103nat);
        assert(seq![73nat, 89nat, 13327nat].len() == 3 && seq![73nat, 89nat, 13327nat][0] == 73nat);
        assert(seq![73nat, 89nat, 13327nat].drop_first() =~= seq![89nat, 13327nat]);
        assert(product(seq![73nat, 89nat, 13327nat].drop_first()) == 1186103nat);
        assert(product(seq![73nat, 89nat, 13327nat]) == seq![73nat, 89nat, 13327nat][0] * product(seq![73nat, 89nat, 13327nat].drop_first()));
        assert(product(seq![73nat, 89nat, 13327nat]) == 86585519nat);
        assert(seq![2nat, 73nat, 89nat, 13327nat].len() == 4 && seq![2nat, 73nat, 89nat, 13327nat][0] == 2nat);
        assert(seq![2nat, 73nat, 89nat, 13327nat].drop_first() =~= seq![73nat, 89nat, 13327nat]);
        assert(product(seq![2nat, 73nat, 89nat, 13327nat].drop_first()) == 86585519nat);
        assert(product(seq![2nat, 73nat, 89nat, 13327nat]) == seq![2nat, 73nat, 89nat, 13327nat][0] * product(seq![2nat, 73nat, 89nat, 13327nat].drop_first()));
        assert(product(seq![2nat, 73nat, 89nat, 13327nat]) == 173171038nat);
    }
    assert forall|i: int| 0 <= i < fs.len() implies mod_pow(13, ((173171038nat) / fs[i]) as nat, 173171039) != 1 && is_prime(#[trigger] fs[i]) by {
        if i == 0 {
            assert(fs[i] == 2);
            lemma_fundamental_div_mod_converse(173171038int, 2int, 86585519int, 0int);
        } else if i == 1 {
            assert(fs[i] == 73);
            lemma_fundamental_div_mod_converse(173171038int, 73int, 2372206int, 0int);
        } else if i == 2 {
            assert(fs[i] == 89);
            lemma_fundamental_div_mod_converse(173171038int, 89int, 1945742int, 0int);
        } else if i == 3 {
            assert(fs[i] == 13327);
            lemma_fundamental_div_mod_converse(173171038int, 13327int, 12994int, 0int);
        }
    }
}

/// 173171039 is prime.
pub proof fn lemma_prime_173171039()
    ensures
        is_prime(173171039),
{
    lemma_witness_173171039();
    lemma_pratt_prime(173171039, 13, seq![2nat, 73nat, 89nat, 13327nat]);
}

pub proof fn lemma_pow_405928799_full()
    ensures
        mod_pow(22, 405928798, 405928799) == 1,
{
    let m = 405928799int;
    lemma_fundamental_div_mod_converse(1, m, 0, 1);
    assert(mod_pow(22, 0, 405928799) == 1);
    lemma_fundamental_div_mod_converse(1int * 1int, m, 0int, 1int);
    lemma_fundamental_div_mod_converse(1int * 22, m, 0int, 22int);
    assert(mod_pow(22, 1, 405928799) == 22);
    lemma_fundamental_div_mod_converse(22int * 22int, m, 0int, 484int);
    lemma_fundamental_div_mod_converse(484int * 22, m, 0int, 10648int);
    assert(mod_pow(22, 3, 405928799) == 10648);
    lemma_fundamental_div_mod_converse(10648int * 10648int, m, 0int, 113379904int);
    assert(mod_pow(22, 6, 405928799) == 113379904);
    lemma_fundamental_div_mod_converse(113379904int * 113379904int, m, 31668121int, 306932537int);
    assert(mod_pow(22, 12, 405928799) == 306932537);
    lemma_fundamental_div_mod_converse(306932537int * 306932537int, m, 232079080int, 51831449int);
    assert(mod_pow(22, 24, 405928799) == 51831449);
    lemma_fundamental_div_mod_converse(51831449int * 51831449int, m, 6618153int, 206551354int);
    assert(mod_pow(22, 48, 405928799) == 206551354);
    lemma_fundamental_div_mod_converse(206551354int * 206551354int, m, 105100850int, 24854166int);
    assert(mod_pow(22, 96, 405928799) == 24854166);
    lemma_fundamental_div_mod_converse(24854166int * 24854166int, m, 1521768int, 110958924int);
    lemma_fundamental_div_mod_converse(110958924int * 22, m, 6int, 5523534int);
    assert(mod_pow(22, 193, 405928799) == 5523534);
    lemma_fundamental_div_mod_converse(5523534int * 5523534int, m, 75159int, 225245115int);
    lemma_fundamental_div_mod_converse(225245115int * 22, m, 12int, 84246942int);
    assert(mod_pow(22, 387, 405928799) == 84246942);
    lemma_fundamental_div_mod_converse(84246942int * 84246942int, m, 17484709int, 311116873int);
    assert(mod_pow(22, 774, 405928799) == 311116873);
    lemma_fundamental_div_mod_converse(311116873int * 311116873int, m, 238449966int, 345327295int);
    assert(mod_pow(22, 1548, 405928799) == 345327295);
    lemma_fundamental_div_mod_converse(345327295int * 345327295int, m, 293773048int, 118807673int);
    assert(mod_pow(22, 3096, 405928799) == 118807673);
    lemma_fundamental_div_mod_converse(118807673int * 118807673int, m, 34772756int, 82674885int);
    lemma_fundamental_div_mod_converse(82674885int * 22, m, 4int, 195132274int);
    assert(mod_pow(22, 6193, 405928799) == 195132274);
    lemma_fundamental_div_mod_converse(195132274int * 195132274int, m, 93801189int, 360869065int);
    lemma_fundamental_div_mod_converse(360869065int * 22, m, 19int, 226472249int);
    assert(mod_pow(22, 12387, 405928799) == 226472249);
    lemma_fundamental_div_mod_converse(226472249int * 226472249int, m, 126351418int, 206431019int);
    lemma_fundamental_div_mod_converse(206431019int * 22, m, 11int, 76265629int);
    assert(mod_pow(22, 24775, 405928799) == 76265629);
    lemma_fundamental_div_mod_converse(76265629int * 76265629int, m, 14328734int, 382955175int);
    lemma_fundamental_div_mod_converse(382955175int * 22, m, 20int, 306437870int);
    assert(mod_pow(22, 49551, 405928799) == 306437870);
    lemma_fundamental_div_mod_converse(306437870int * 306437870int, m, 231331623int, 275026123int);
    lemma_fundamental_div_mod_converse(275026123int * 22, m, 14int, 367571520int);
    assert(mod_pow(22, 99103, 405928799) == 367571520);
    lemma_fundamental_div_mod_converse(367571520int * 367571520int, m, 332838721int, 38884321int);
    lemma_fundamental_div_mod_converse(38884321int * 22, m, 2int, 43597464int);
    assert(mod_pow(22, 198207, 405928799) == 43597464);
    lemma_fundamental_div_mod_converse(43597464int * 43597464int, m, 4682443int, 403855339int);
    assert(mod_pow(22, 396414, 405928799) == 403855339);
    lemma_fundamental_div_mod_converse(403855339int * 403855339int, m, 401792470int, 44461391int);
    lemma_fundamental_div_mod_converse(44461391int * 22, m, 2int, 166293004int);
    assert(mod_pow(22, 792829, 405928799) == 166293004);
    lemma_fundamental_div_mod_converse(166293004int * 166293004int, m, 68123678int, 385341294int);
    lemma_fundamental_div_mod_converse(385341294int * 22, m, 20int, 358932488int);
    assert(mod_pow(22, 1585659, 405928799) == 358932488);
    lemma_fundamental_div_mod_converse(358932488int * 358932488int, m, 317377163int, 335252907int);
    assert(mod_pow(22, 3171318, 405928799) == 335252907);
    lemma_fundamental_div_mod_converse(335252907int * 335252907int, m, 276882329int, 376657778int);
    lemma_fundamental_div_mod_converse(376657778int * 22, m, 20int, 167895136int);
    assert(mod_pow(22, 6342637, 405928799) == 167895136);
    lemma_fundamental_div_mod_converse(167895136int * 167895136int, m, 69442662int, 307435558int);
    assert(mod_pow(22, 12685274, 405928799) == 307435558);
    lemma_fundamental_div_mod_converse(307435558int * 307435558int, m, 232840396int, 15806960int);
    lemma_fundamental_div_mod_converse(15806960int * 22, m, 0int, 347753120int);
    assert(mod_pow(22, 25370549, 405928799) == 347753120);
    lemma_fundamental_div_mod_converse(347753120int * 347753120int, m, 297914887int, 185603687int);
    lemma_fundamental_div_mod_converse(185603687int * 22, m, 10int, 23993124int);
    assert(mod_pow(22, 50741099, 405928799) == 23993124);
    lemma_fundamental_div_mod_converse(23993124int * 23993124int, m, 1418155int, 43333531int);
    lemma_fundamental_div_mod_converse(43333531int * 22, m, 2int, 141480084int);
    assert(mod_pow(22, 101482199, 405928799) == 141480084);
    lemma_fundamental_div_mod_converse(141480084int * 141480084int, m, 49310653int, 18451309int);
    lemma_fundamental_div_mod_converse(18451309int * 22, m, 0int, 405928798int);
    assert(mod_pow(22, 202964399, 405928799) == 405928798);
    lemma_fundamental_div_mod_converse(405928798int * 405928798int, m, 405928797int, 1int);
    assert(mod_pow(22, 405928798, 405928799) == 1);
}

pub proof fn lemma_pow_405928799_by_2()
    ensures
        mod_pow(22, 202964399, 405928799) == 405928798,
{
    let m = 405928799int;
    lemma_fundamental_div_mod_converse(1, m, 0, 1);
    assert(mod_pow(22, 0, 405928799) == 1);
    lemma_fundamental_div_mod_converse(1int * 1int, m, 0int, 1int);
    lemma_fundamental_div_mod_converse(1int * 22, m, 0int, 22int);
    assert(mod_pow(22, 1, 405928799) == 22);
    lemma_fundamental_div_mod_converse(22int * 22int, m, 0int, 484int);
    lemma_fundamental_div_mod_converse(484int * 22, m, 0int, 10648int);
    assert(mod_pow(22, 3, 405928799) == 10648);
    lemma_fundamental_div_mod_converse(10648int * 10648int, m, 0int, 113379904int);
    assert(mod_pow(22, 6, 405928799) == 113379904);
    lemma_fundamental_div_mod_converse(113379904int * 113379904int, m, 31668121int, 306932537int);
    assert(mod_pow(22, 12, 405928799) == 306932537);
    lemma_fundamental_div_mod_converse(306932537int * 306932537int, m, 232079080int, 51831449int);
    assert(mod_pow(22, 24, 405928799) == 51831449);
    lemma_fundamental_div_mod_converse(51831449int * 51831449int, m, 6618153int, 206551354int);
    assert(mod_pow(22, 48, 405928799) == 206551354);
    lemma_fundamental_div_mod_converse(206551354int * 206551354int, m, 105100850int, 24854166int);
    assert(mod_pow(22, 96, 405928799) == 24854166);
    lemma_fundamental_div_mod_converse(24854166int * 24854166int, m, 1521768int, 110958924int);
    lemma_fundamental_div_mod_converse(110958924int * 22, m, 6int, 5523534int);
    assert(mod_pow(22, 193, 405928799) == 5523534);
    lemma_fundamental_div_mod_converse(5523534int * 5523534int, m, 75159int, 225245115int);
    lemma_fundamental_div_mod_converse(225245115int * 22, m, 12int, 84246942int);
    assert(mod_pow(22, 387, 405928799) == 84246942);
    lemma_fundamental_div_mod_converse(84246942int * 84246942int, m, 17484709int, 311116873int);
    assert(mod_pow(22, 774, 405928799) == 311116873);
    lemma_fundamental_div_mod_converse(311116873int * 311116873int, m, 238449966int, 345327295int);
    assert(mod_pow(22, 1548, 405928799) == 345327295);
    lemma_fundamental_div_mod_converse(345327295int * 345327295int, m, 293773048int, 118807673int);
    assert(mod_pow(22, 3096, 405928799) == 118807673);
    lemma_fundamental_div_mod_converse(118807673int * 118807673int, m, 34772756int, 82674885int);
    lemma_fundamental_div_mod_converse(82674885int * 22, m, 4int, 195132274int);
    assert(mod_pow(22, 6193, 405928799) == 195132274);
    lemma_fundamental_div_mod_converse(195132274int * 195132274int, m, 93801189int, 360869065int);
    lemma_fundamental_div_mod_converse(360869065int * 22, m, 19int, 226472249int);
    assert(mod_pow(22, 12387, 405928799) == 226472249);
    lemma_fundamental_div_mod_converse(226472249int * 226472249int, m, 126351418int, 206431019int);
    lemma_fundamental_div_mod_converse(206431019int * 22, m, 11int, 76265629int);
    assert(mod_pow(22, 24775, 405928799) == 76265629);
    lemma_fundamental_div_mod_converse(76265629int * 76265629int, m, 14328734int, 382955175int);
    lemma_fundamental_div_mod_converse(382955175int * 22, m, 20int, 306437870int);
    assert(mod_pow(22, 49551, 405928799) == 306437870);
    lemma_fundamental_div_mod_converse(306437870int * 306437870int, m, 231331623int, 275026123int);
    lemma_fundamental_div_mod_converse(275026123int * 22, m, 14int, 367571520int);
    assert(mod_pow(22, 99103, 405928799) == 367571520);
    lemma_fundamental_div_mod_converse(367571520int * 367571520int, m, 332838721int, 38884321int);
    lemma_fundamental_div_mod_converse(38884321int * 22, m, 2int, 43597464int);
    assert(mod_pow(22, 198207, 405928799) == 43597464);
    lemma_fundamental_div_mod_converse(43597464int * 43597464int, m, 4682443int, 403855339int);
    assert(mod_pow(22, 396414, 405928799) == 403855339);
    lemma_fundamental_div_mod_converse(403855339int * 403855339int, m, 401792470int, 44461391int);
    lemma_fundamental_div_mod_converse(44461391int * 22, m, 2int, 166293004int);
    assert(mod_pow(22, 792829, 405928799) == 166293004);
    lemma_fundamental_div_mod_converse(166293004int * 166293004int, m, 68123678int, 385341294int);
    lemma_fundamental_div_mod_converse(385341294int * 22, m, 20int, 358932488int);
    assert(mod_pow(22, 1585659, 405928799) == 358932488);
    lemma_fundamental_div_mod_converse(358932488int * 358932488int, m, 317377163int, 335252907int);
    assert(mod_pow(22, 3171318, 405928799) == 335252907);
    lemma_fundamental_div_mod_converse(335252907int * 335252907int, m, 276882329int, 376657778int);
    lemma_fundamental_div_mod_converse(376657778int * 22, m, 20int, 167895136int);
    assert(mod_pow(22, 6342637, 405928799) == 167895136);
    lemma_fundamental_div_mod_converse(167895136int * 167895136int, m, 69442662int, 307435558int);
    assert(mod_pow(22, 12685274, 405928799) == 307435558);
    lemma_fundamental_div_mod_converse(307435558int * 307435558int, m, 232840396int, 15806960int);
    lemma_fundamental_div_mod_converse(15806960int * 22, m, 0int, 347753120int);
    assert(mod_pow(22, 25370549, 405928799) == 347753120);
    lemma_fundamental_div_mod_converse(347753120int * 347753120int, m, 297914887int, 185603687int);
    lemma_fundamental_div_mod_converse(185603687int * 22, m, 10int, 23993124int);
    assert(mod_pow(22, 50741099, 405928799) == 23993124);
    lemma_fundamental_div_mod_converse(23993124int * 23993124int, m, 1418155int, 43333531int);
    lemma_fundamental_div_mod_converse(43333531int * 22, m, 2int, 141480084int);
    assert(mod_pow(22, 101482199, 405928799) == 141480084);
    lemma_fundamental_div_mod_converse(141480084int * 141480084int, m, 49310653int, 18451309int);
    lemma_fundamental_div_mod_converse(18451309int * 22, m, 0int, 405928798int);
    assert(mod_pow(22, 202964399, 405928799) == 405928798);
}

pub proof fn lemma_pow_405928799_by_11()
    ensures
        mod_pow(22, 36902618, 405928799) == 215859951,
{
    let m = 405928799int;
    lemma_fundamental_div_mod_converse(1, m, 0, 1);
    assert(mod_pow(22, 0, 405928799) == 1);
    lemma_fundamental_div_mod_converse(1int * 1int, m, 0int, 1int);
    lemma_fundamental_div_mod_converse(1int * 22, m, 0int, 22int);
    assert(mod_pow(22, 1, 405928799) == 22);
    lemma_fundamental_div_mod_converse(22int * 22int, m, 0int, 484int);
    assert(mod_pow(22, 2, 405928799) == 484);
    lemma_fundamental_div_mod_converse(484int * 484int, m, 0int, 234256int);
    assert(mod_pow(22, 4, 405928799) == 234256);
    lemma_fundamental_div_mod_converse(234256int * 234256int, m, 135int, 75485671int);
    assert(mod_pow(22, 8, 405928799) == 75485671);
    lemma_fundamental_div_mod_converse(75485671int * 75485671int, m, 14037157int, 243935798int);
    lemma_fundamental_div_mod_converse(243935798int * 22, m, 13int, 89513169int);
    assert(mod_pow(22, 17, 405928799) == 89513169);
    lemma_fundamental_div_mod_converse(89513169int * 89513169int, m, 19738947int, 375187908int);
    lemma_fundamental_div_mod_converse(375187908int * 22, m, 20int, 135557996int);
    assert(mod_pow(22, 35, 405928799) == 135557996);
    lemma_fundamental_div_mod_converse(135557996int * 135557996int, m, 45268949int, 179973765int);
    assert(mod_pow(22, 70, 405928799) == 179973765);
    lemma_fundamental_div_mod_converse(179973765int * 179973765int, m, 79793688int, 150654513int);
    assert(mod_pow(22, 140, 405928799) == 150654513);
    lemma_fundamental_div_mod_converse(150654513int * 150654513int, m, 55913210int, 103732379int);
    lemma_fundamental_div_mod_converse(103732379int * 22, m, 5int, 252468343int);
    assert(mod_pow(22, 281, 405928799) == 252468343);
    lemma_fundamental_div_mod_converse(252468343int * 252468343int, m, 157023262int, 58443311int);
    lemma_fundamental_div_mod_converse(58443311int * 22, m, 3int, 67966445int);
    assert(mod_pow(22, 563, 405928799) == 67966445);
    lemma_fundamental_div_mod_converse(67966445int * 67966445int, m, 11379920int, 387621945int);
    assert(mod_pow(22, 1126, 405928799) == 387621945);
    lemma_fundamental_div_mod_converse(387621945int * 387621945int, m, 370140705int, 403919730int);
    assert(mod_pow(22, 2252, 405928799) == 403919730);
    lemma_fundamental_div_mod_converse(403919730int * 403919730int, m, 401920604int, 208198304int);
    assert(mod_pow(22, 4504, 405928799) == 208198304);
    lemma_fundamental_div_mod_converse(208198304int * 208198304int, m, 106783588int, 158725604int);
    lemma_fundamental_div_mod_converse(158725604int * 22, m, 8int, 244532896int);
    assert(mod_pow(22, 9009, 405928799) == 244532896);
    lemma_fundamental_div_mod_converse(244532896int * 244532896int, m, 147307452int, 152036668int);
    assert(mod_pow(22, 18018, 405928799) == 152036668);
    lemma_fundamental_div_mod_converse(152036668int * 152036668int, m, 56943849int, 181534873int);
    lemma_fundamental_div_mod_converse(181534873int * 22, m, 9int, 340408015int);
    assert(mod_pow(22, 36037, 405928799) == 340408015);
    lemma_fundamental_div_mod_converse(340408015int * 340408015int, m, 285462911int, 54966336int);
    lemma_fundamental_div_mod_converse(54966336int * 22, m, 2int, 397401794int);
    assert(mod_pow(22, 72075, 405928799) == 397401794);
    lemma_fundamental_div_mod_converse(397401794int * 397401794int, m, 389053908int, 253721944int);
    assert(mod_pow(22, 144150, 405928799) == 253721944);
    lemma_fundamental_div_mod_converse(253721944int * 253721944int, m, 158586493int, 226027229int);
    lemma_fundamental_div_mod_converse(226027229int * 22, m, 12int, 101453450int);
    assert(mod_pow(22, 288301, 405928799) == 101453450);
    lemma_fundamental_div_mod_converse(101453450int * 101453450int, m, 25356177int, 40061077int);
    lemma_fundamental_div_mod_converse(40061077int * 22, m, 2int, 69486096int);
    assert(mod_pow(22, 576603, 405928799) == 69486096);
    lemma_fundamental_div_mod_converse(69486096int * 69486096int, m, 11894493int, 279117309int);
    assert(mod_pow(22, 1153206, 405928799) == 279117309);
    lemma_fundamental_div_mod_converse(279117309int * 279117309int, m, 191921520int, 67547001int);
    lemma_fundamental_div_mod_converse(67547001int * 22, m, 3int, 268247625int);
    assert(mod_pow(22, 2306413, 405928799) == 268247625);
    lemma_fundamental_div_mod_converse(268247625int * 268247625int, m, 177264555int, 401721180int);
    lemma_fundamental_div_mod_converse(401721180int * 22, m, 21int, 313361181int);
    assert(mod_pow(22, 4612827, 405928799) == 313361181);
    lemma_fundamental_div_mod_converse(313361181int * 313361181int, m, 241902594int, 300310155int);
    assert(mod_pow(22, 9225654, 405928799) == 300310155);
    lemma_fundamental_div_mod_converse(300310155int * 300310155int, m, 222172433int, 297526058int);
    lemma_fundamental_div_mod_converse(297526058int * 22, m, 16int, 50712492int);
    assert(mod_pow(22, 18451309, 405928799) == 50712492);
    lemma_fundamental_div_mod_converse(50712492int * 50712492int, m, 6335487int, 215859951int);
    assert(mod_pow(22, 36902618, 405928799) == 215859951);
}

pub proof fn lemma_pow_405928799_by_3691()
    ensures
        mod_pow(22, 109978, 405928799) == 147917081,
{
    let m = 405928799int;
    lemma_fundamental_div_mod_converse(1, m, 0, 1);
    assert(mod_pow(22, 0, 405928799) == 1);
    lemma_fundamental_div_mod_converse(1int * 1int, m, 0int, 1int);
    lemma_fundamental_div_mod_converse(1int * 22, m, 0int, 22int);
    assert(mod_pow(22, 1, 405928799) == 22);
    lemma_fundamental_div_mod_converse(22int * 22int, m, 0int, 484int);
    lemma_fundamental_div_mod_converse(484int * 22, m, 0int, 10648int);
    assert(mod_pow(22, 3, 405928799) == 10648);
    lemma_fundamental_div_mod_converse(10648int * 10648int, m, 0int, 113379904int);
    assert(mod_pow(22, 6, 405928799) == 113379904);
    lemma_fundamental_div_mod_converse(113379904int * 113379904int, m, 31668121int, 306932537int);
    lemma_fundamental_div_mod_converse(306932537int * 22, m, 16int, 257655030int);
    assert(mod_pow(22, 13, 405928799) == 257655030);
    lemma_fundamental_div_mod_converse(257655030int * 257655030int, m, 163541277int, 324764577int);
    assert(mod_pow(22, 26, 405928799) == 324764577);
    lemma_fundamental_div_mod_converse(324764577int * 324764577int, m, 259828892int, 398928221int);
    lemma_fundamental_div_mod_converse(398928221int * 22, m, 21int, 251916083int);
    assert(mod_pow(22, 53, 405928799) == 251916083);
    lemma_fundamental_div_mod_converse(251916083int * 251916083int, m, 156337054int, 304644743int);
    lemma_fundamental_div_mod_converse(304644743int * 22, m, 16int, 207323562int);
    assert(mod_pow(22, 107, 405928799) == 207323562);
    lemma_fundamental_div_mod_converse(207323562int * 207323562int, m, 105888174int, 60244818int);
    assert(mod_pow(22, 214, 405928799) == 60244818);
    lemma_fundamental_div_mod_converse(60244818int * 60244818int, m, 8941070int, 288978194int);
    lemma_fundamental_div_mod_converse(288978194int * 22, m, 15int, 268588283int);
    assert(mod_pow(22, 429, 405928799) == 268588283);
    lemma_fundamental_div_mod_converse(268588283int * 268588283int, m, 177715072int, 23729561int);
    lemma_fundamental_div_mod_converse(23729561int * 22, m, 1int, 116121543int);
    assert(mod_pow(22, 859, 405928799) == 116121543);
    lemma_fundamental_div_mod_converse(116121543int * 116121543int, m, 33218172int, 83765421int);
    assert(mod_pow(22, 1718, 405928799) == 83765421);
    lemma_fundamental_div_mod_converse(83765421int * 83765421int, m, 17285410int, 33784651int);
    assert(mod_pow(22, 3436, 405928799) == 33784651);
    lemma_fundamental_div_mod_converse(33784651int * 33784651int, m, 2811829int, 274228430int);
    lemma_fundamental_div_mod_converse(274228430int * 22, m, 14int, 350022274int);
    assert(mod_pow(22, 6873, 405928799) == 350022274);
    lemma_fundamental_div_mod_converse(350022274int * 350022274int, m, 301815472int, 227552948int);
    lemma_fundamental_div_mod_converse(227552948int * 22, m, 12int, 135019268int);
    assert(mod_pow(22, 13747, 405928799) == 135019268);
    lemma_fundamental_div_mod_converse(135019268int * 135019268int, m, 44909853int, 39699277int);
    assert(mod_pow(22, 27494, 405928799) == 39699277);
    lemma_fundamental_div_mod_converse(39699277int * 39699277int, m, 3882534int, 230626063int);
    lemma_fundamental_div_mod_converse(230626063int * 22, m, 12int, 202627798int);
    assert(mod_pow(22, 54989, 405928799) == 202627798);
    lemma_fundamental_div_mod_converse(202627798int * 202627798int, m, 101145877int, 147917081int);
    assert(mod_pow(22, 109978, 405928799) == 147917081);
}

pub proof fn lemma_pow_405928799_by_4999()
    ensures
        mod_pow(22, 81202, 405928799) == 61847818,
{
    let m = 405928799int;
    lemma_fundamental_div_mod_converse(1, m, 0, 1);
    assert(mod_pow(22, 0, 405928799) == 1);
    lemma_fundamental_div_mod_converse(1int * 1int, m, 0int, 1int);
    lemma_fundamental_div_mod_converse(1int * 22, m, 0int, 22int);
    assert(mod_pow(22, 1, 405928799) == 22);
    lemma_fundamental_div_mod_converse(22int * 22int, m, 0int, 484int);
    assert(mod_pow(22, 2, 405928799) == 484);
    lemma_fundamental_div_mod_converse(484int * 484int, m, 0int, 234256int);
    assert(mod_pow(22, 4, 405928799) == 234256);
    lemma_fundamental_div_mod_converse(234256int * 234256int, m, 135int, 75485671int);
    lemma_fundamental_div_mod_converse(75485671int * 22, m, 4int, 36969566int);
    assert(mod_pow(22, 9, 405928799) == 36969566);
    lemma_fundamental_div_mod_converse(36969566int * 36969566int, m, 3366966int, 345574522int);
    lemma_fundamental_div_mod_converse(345574522int * 22, m, 18int, 295921102int);
    assert(mod_pow(22, 19, 405928799) == 295921102);
    lemma_fundamental_div_mod_converse(295921102int * 295921102int, m, 215725759int, 344660963int);
    lemma_fundamental_div_mod_converse(344660963int * 22, m, 18int, 275822804int);
    assert(mod_pow(22, 39, 405928799) == 275822804);
    lemma_fundamental_div_mod_converse(275822804int * 275822804int, m, 187417644int, 66092860int);
    lemma_fundamental_div_mod_converse(66092860int * 22, m, 3int, 236256523int);
    assert(mod_pow(22, 79, 405928799) == 236256523);
    lemma_fundamental_div_mod_converse(236256523int * 236256523int, m, 137504766int, 140893495int);
    assert(mod_pow(22, 158, 405928799) == 140893495);
    lemma_fundamental_div_mod_converse(140893495int * 140893495int, m, 48902607int, 405836032int);
    lemma_fundamental_div_mod_converse(405836032int * 22, m, 21int, 403887925int);
    assert(mod_pow(22, 317, 405928799) == 403887925);
    lemma_fundamental_div_mod_converse(403887925int * 403887925int, m, 401857311int, 337206136int);
    assert(mod_pow(22, 634, 405928799) == 337206136);
    lemma_fundamental_div_mod_converse(337206136int * 337206136int, m, 280118036int, 224331732int);
    assert(mod_pow(22, 1268, 405928799) == 224331732);
    lemma_fundamental_div_mod_converse(224331732int * 224331732int, m, 123974268int, 265975692int);
    lemma_fundamental_div_mod_converse(265975692int * 22, m, 14int, 168462038int);
    assert(mod_pow(22, 2537, 405928799) == 168462038);
    lemma_fundamental_div_mod_converse(168462038int * 168462038int, m, 69912404int, 56190648int);
    lemma_fundamental_div_mod_converse(56190648int * 22, m, 3int, 18407859int);
    assert(mod_pow(22, 5075, 405928799) == 18407859);
    lemma_fundamental_div_mod_converse(18407859int * 18407859int, m, 834750int, 207998631int);
    assert(mod_pow(22, 10150, 405928799) == 207998631);
    lemma_fundamental_div_mod_converse(207998631int * 207998631int, m, 106578864int, 235569825int);
    assert(mod_pow(22, 20300, 405928799) == 235569825);
    lemma_fundamental_div_mod_converse(235569825int * 235569825int, m, 136706591int, 150516416int);
    lemma_fundamental_div_mod_converse(150516416int * 22, m, 8int, 63930760int);
    assert(mod_pow(22, 40601, 405928799) == 63930760);
    lemma_fundamental_div_mod_converse(63930760int * 63930760int, m, 10068618int, 61847818int);
    assert(mod_pow(22, 81202, 405928799) == 61847818);
}

/// A Lucas–Pratt witness for 405928799: generator 22, and n - 1 = 2 * 11 * 3691 * 4999.
pub proof fn lemma_witness_405928799()
    ensures
        pratt_witness(405928799, 22, seq![2nat, 11nat, 3691nat, 4999nat]),
{
    lemma_prime_11();
    lemma_prime_3691();
    lemma_prime_4999();
    lemma_pow_405928799_full();
    lemma_pow_405928799_by_2();
    lemma_pow_405928799_by_11();
    lemma_pow_405928799_by_3691();
    lemma_pow_405928799_by_4999();
    let fs = seq![2nat, 11nat, 3691nat, 4999nat];
    assert(product(fs) == 405928798nat) by {
        assert(product(Seq::<nat>::empty()) == 1);
        assert(seq![4999nat].len() == 1 && seq![4999nat][0] == 4999nat);
        assert(seq![4999nat].drop_first() =~= Seq::<nat>::empty());
        assert(product(seq![4999nat].drop_first()) == 1nat);
        assert(product(seq![4999nat]) == seq![4999nat][0] * product(seq![4999nat].drop_first()));
        assert(product(seq![4999nat]) == 4999nat);
        assert(seq![3691nat, 4999nat].len() == 2 && seq![3691nat, 4999nat][0] == 3691nat);
        assert(seq![3691nat, 4999nat].drop_first() =~= seq![4999nat]);
        assert(product(seq![3691nat, 4999nat].drop_first()) == 4999nat);
        assert(product(seq![3691nat, 4999nat]) == seq![3691nat, 4999nat][0] * product(seq![3691nat, 4999nat].drop_first()));
        assert(product(seq![3691nat, 4999nat]) == 18451309nat);
        assert(seq![11nat, 3691nat, 4999nat].len() == 3 && seq![11nat, 3691nat, 4999nat][0] == 11nat);
        assert(seq![11nat, 3691nat, 4999nat].drop_first() =~= seq![3691nat, 4999nat]);
        assert(product(seq![11nat, 3691nat, 4999nat].drop_first()) == 18451309nat);
        assert(product(seq![11nat, 3691nat, 4999nat]) == seq![11nat, 3691nat, 4999nat][0] * product(seq![11nat, 3691nat, 4999nat].drop_first()));
        assert(product(seq![11nat, 3691nat, 4999nat]) == 202964399nat);
        assert(seq![2nat, 11nat, 3691nat, 4999nat].len() == 4 && seq![2nat, 11nat, 3691nat, 4999nat][0] == 2nat);
        assert(seq![2nat, 11nat, 3691nat, 4999nat].drop_first() =~= seq![11nat, 3691nat, 4999nat]);
        assert(product(seq![2nat, 11nat, 3691nat, 4999nat].drop_first()) == 202964399nat);
        assert(product(seq![2nat, 11nat, 3691nat, 4999nat]) == seq![2nat, 11nat, 3691nat, 4999nat][0] * product(seq![2nat, 11nat, 3691nat, 4999nat].drop_first()));
        assert(product(seq![2nat, 11nat, 3691nat, 4999nat]) == 405928798nat);
    }
    assert forall|i: int| 0 <= i < fs.len() implies mod_pow(22, ((405928798nat) / fs[i]) as nat, 405928799) != 1 && is_prime(#[trigger] fs[i]) by {
        if i == 0 {
            assert(fs[i] == 2);
            lemma_fundamental_div_mod_converse(405928798int, 2int, 202964399int, 0int);
        } else if i == 1 {
            assert(fs[i] == 11);
            lemma_fundamental_div_mod_converse(405928798int, 11int, 36902618int, 0int);
        } else if i == 2 {
            assert(fs[i] == 3691);
            lemma_fundamental_div_mod_converse(405928798int, 3691int, 109978int, 0int);
        } else if i == 3 {
            assert(fs[i] == 4999);
            lemma_fundamental_div_mod_converse(405928798int, 4999int, 81202int, 0int);
        }
    }
}

/// 405928799 is prime.
pub proof fn lemma_prime_405928799()
    ensures
        is_prime(405928799),
{
    lemma_witness_405928799();
    lemma_pratt_prime(405928799, 22, seq![2nat, 11nat, 3691nat, 4999nat]);
}

pub proof fn lemma_pow_1263766531_full()
    ensures
        mod_pow(10, 1263766530, 1263766531) == 1,
{
    let m = 1263766531int;
    lemma_fundamental_div_mod_converse(1, m, 0, 1);
    assert(mod_pow(10, 0, 1263766531) == 1);
    lemma_fundamental_div_mod_converse(1int * 1int, m, 0int, 1int);
    lemma_fundamental_div_mod_converse(1int * 10, m, 0int, 10int);
    assert(mod_pow(10, 1, 1263766531) == 10);
    lemma_fundamental_div_mod_converse(10int * 10int, m, 0int, 100int);
    assert(mod_pow(10, 2, 1263766531) == 100);
    lemma_fundamental_div_mod_converse(100int * 100int, m, 0int, 10000int);
    assert(mod_pow(10, 4, 1263766531) == 10000);
    lemma_fundamental_div_mod_converse(10000int * 10000int, m, 0int, 100000000int);
    lemma_fundamental_div_mod_converse(100000000int * 10, m, 0int, 1000000000int);
    assert(mod_pow(10, 9, 1263766531) == 1000000000);
    lemma_fundamental_div_mod_converse(1000000000int * 1000000000int, m, 791285396int, 66118724int);
    assert(mod_pow(10, 18, 1263766531) == 66118724);
    lemma_fundamental_div_mod_converse(66118724int * 66118724int, m, 3459251int, 27259895int);
    lemma_fundamental_div_mod_converse(27259895int * 10, m, 0int, 272598950int);
    assert(mod_pow(10, 37, 1263766531) == 272598950);
    lemma_fundamental_div_mod_converse(272598950int * 272598950int, m, 58800566int, 226445954int);
    lemma_fundamental_div_mod_converse(226445954int * 10, m, 1int, 1000693009int);
    assert(mod_pow(10, 75, 1263766531) == 1000693009);
    lemma_fundamental_div_mod_converse(1000693009int * 1000693009int, m, 792382511int, 1109934740int);
    assert(mod_pow(10, 150, 1263766531) == 1109934740);
    lemma_fundamental_div_mod_converse(1109934740int * 1109934740int, m, 974828100int, 800546500int);
    lemma_fundamental_div_mod_converse(800546500int * 10, m, 6int, 422865814int);
    assert(mod_pow(10, 301, 1263766531) == 422865814);
    lemma_fundamental_div_mod_converse(422865814int * 422865814int, m, 141494091int, 109814275int);
    assert(mod_pow(10, 602, 1263766531) == 109814275);
    lemma_fundamental_div_mod_converse(109814275int * 109814275int, m, 9542249int, 77107406int);
    lemma_fundamental_div_mod_converse(77107406int * 10, m, 0int, 771074060int);
    assert(mod_pow(10, 1205, 1263766531) == 771074060);
    lemma_fundamental_div_mod_converse(771074060int * 771074060int, m, 470462851int, 832243719int);
    assert(mod_pow(10, 2410, 1263766531) == 832243719);
    lemma_fundamental_div_mod_converse(832243719int * 832243719int, m, 548067693int, 679167978int);
    assert(mod_pow(10, 4820, 1263766531) == 679167978);
    lemma_fundamental_div_mod_converse(679167978int * 679167978int, m, 364995535int, 1243169399int);
    lemma_fundamental_div_mod_converse(1243169399int * 10, m, 9int, 1057795211int);
    assert(mod_pow(10, 9641, 1263766531) == 1057795211);
    lemma_fundamental_div_mod_converse(1057795211int * 1057795211int, m, 885393528int, 964123153int);
    lemma_fundamental_div_mod_converse(964123153int * 10, m, 7int, 794865813int);
    assert(mod_pow(10, 19283, 1263766531) == 794865813);
    lemma_fundamental_div_mod_converse(794865813int * 794865813int, m, 499943340int, 187797429int);
    lemma_fundamental_div_mod_converse(187797429int * 10, m, 1int, 614207759int);
    assert(mod_pow(10, 38567, 1263766531) == 614207759);
    lemma_fundamental_div_mod_converse(614207759int * 614207759int, m, 298513342int, 539245479int);
    assert(mod_pow(10, 77134, 1263766531) == 539245479);
    lemma_fundamental_div_mod_converse(539245479int * 539245479int, m, 230094467int, 259055464int);
    assert(mod_pow(10, 154268, 1263766531) == 259055464);
    lemma_fundamental_div_mod_converse(259055464int * 259055464int, m, 53102951int, 1257122315int);
    assert(mod_pow(10, 308536, 1263766531) == 1257122315);
    lemma_fundamental_div_mod_converse(1257122315int * 1257122315int, m, 1250513030int, 977560295int);
    lemma_fundamental_div_mod_converse(977560295int * 10, m, 7int, 929237233int);
    assert(mod_pow(10, 617073, 1263766531) == 929237233);
    lemma_fundamental_div_mod_converse(929237233int * 929237233int, m, 683260565int, 1194346274int);
    lemma_fundamental_div_mod_converse(1194346274int * 10, m, 9int, 569563961int);
    assert(mod_pow(10, 1234147, 1263766531) == 569563961);
    lemma_fundamental_div_mod_converse(569563961int * 569563961int, m, 256695439int, 1201457412int);
    assert(mod_pow(10, 2468294, 1263766531) == 1201457412);
    lemma_fundamental_div_mod_converse(1201457412int * 1201457412int, m, 1142220400int, 304305344int);
    assert(mod_pow(10, 4936588, 1263766531) == 304305344);
    lemma_fundamental_div_mod_converse(304305344int * 304305344int, m, 73274406int, 505252750int);
    assert(mod_pow(10, 9873176, 1263766531) == 505252750);
    lemma_fundamental_div_mod_converse(505252750int * 505252750int, m, 201999606int, 44575714int);
    assert(mod_pow(10, 19746352, 1263766531) == 44575714);
    lemma_fundamental_div_mod_converse(44575714int * 44575714int, m, 1572279int, 701015647int);
    assert(mod_pow(10, 39492704, 1263766531) == 701015647);
    lemma_fundamental_div_mod_converse(701015647int * 701015647int, m, 388855793int, 759964526int);
    assert(mod_pow(10, 78985408, 1263766531) == 759964526);
    lemma_fundamental_div_mod_converse(759964526int * 759964526int, m, 457003779int, 337684027int);
    assert(mod_pow(10, 157970816, 1263766531) == 337684027);
    lemma_fundamental_div_mod_converse(337684027int * 337684027int, m, 90230671int, 11464428int);
    assert(mod_pow(10, 315941632, 1263766531) == 11464428);
    lemma_fundamental_div_mod_converse(11464428int * 11464428int, m, 104001int, 126376653int);
    lemma_fundamental_div_mod_converse(126376653int * 10, m, 0int, 1263766530int);
    assert(mod_pow(10, 631883265, 1263766531) == 1263766530);
    lemma_fundamental_div_mod_converse(1263766530int * 1263766530int, m, 1263766529int, 1int);
    assert(mod_pow(10, 1263766530, 1263766531) == 1);
}

pub proof fn lemma_pow_1263766531_by_2()
    ensures
        mod_pow(10, 631883265, 1263766531) == 1263766530,
{
    let m = 1263766531int;
    lemma_fundamental_div_mod_converse(1, m, 0, 1);
    assert(mod_pow(10, 0, 1263766531) == 1);
    lemma_fundamental_div_mod_converse(1int * 1int, m, 0int, 1int);
    lemma_fundamental_div_mod_converse(1int * 10, m, 0int, 10int);
    assert(mod_pow(10, 1, 1263766531) == 10);
    lemma_fundamental_div_mod_converse(10int * 10int, m, 0int, 100int);
    assert(mod_pow(10, 2, 1263766531) == 100);
    lemma_fundamental_div_mod_converse(100int * 100int, m, 0int, 10000int);
    assert(mod_pow(10, 4, 1263766531) == 10000);
    lemma_fundamental_div_mod_converse(10000int * 10000int, m, 0int, 100000000int);
    lemma_fundamental_div_mod_converse(100000000int * 10, m, 0int, 1000000000int);
    assert(mod_pow(10, 9, 1263766531) == 1000000000);
    lemma_fundamental_div_mod_converse(1000000000int * 1000000000int, m, 791285396int, 66118724int);
    assert(mod_pow(10, 18, 1263766531) == 66118724);
    lemma_fundamental_div_mod_converse(66118724int * 66118724int, m, 3459251int, 27259895int);
    lemma_fundamental_div_mod_converse(27259895int * 10, m, 0int, 272598950int);
    assert(mod_pow(10, 37, 1263766531) == 272598950);
    lemma_fundamental_div_mod_converse(272598950int * 272598950int, m, 58800566int, 226445954int);
    lemma_fundamental_div_mod_converse(226445954int * 10, m, 1int, 1000693009int);
    assert(mod_pow(10, 75, 1263766531) == 1000693009);
    lemma_fundamental_div_mod_converse(1000693009int * 1000693009int, m, 792382511int, 1109934740int);
    assert(mod_pow(10, 150, 1263766531) == 1109934740);
    lemma_fundamental_div_mod_converse(1109934740int * 1109934740int, m, 974828100int, 800546500int);
    lemma_fundamental_div_mod_converse(800546500int * 10, m, 6int, 422865814int);
    assert(mod_pow(10, 301, 1263766531) == 422865814);
    lemma_fundamental_div_mod_converse(422865814int * 422865814int, m, 141494091int, 109814275int);
    assert(mod_pow(10, 602, 1263766531) == 109814275);
    lemma_fundamental_div_mod_converse(109814275int * 109814275int, m, 9542249int, 77107406int);
    lemma_fundamental_div_mod_converse(77107406int * 10, m, 0int, 771074060int);
    assert(mod_pow(10, 1205, 1263766531) == 771074060);
    lemma_fundamental_div_mod_converse(771074060int * 771074060int, m, 470462851int, 832243719int);
    assert(mod_pow(10, 2410, 1263766531) == 832243719);
    lemma_fundamental_div_mod_converse(832243719int * 832243719int, m, 548067693int, 679167978int);
    assert(mod_pow(10, 4820, 1263766531) == 679167978);
    lemma_fundamental_div_mod_converse(679167978int * 679167978int, m, 364995535int, 1243169399int);
    lemma_fundamental_div_mod_converse(1243169399int * 10, m, 9int, 1057795211int);
    assert(mod_pow(10, 9641, 1263766531) == 1057795211);
    lemma_fundamental_div_mod_converse(1057795211int * 1057795211int, m, 885393528int, 964123153int);
    lemma_fundamental_div_mod_converse(964123153int * 10, m, 7int, 794865813int);
    assert(mod_pow(10, 19283, 1263766531) == 794865813);
    lemma_fundamental_div_mod_converse(794865813int * 794865813int, m, 499943340int, 187797429int);
    lemma_fundamental_div_mod_converse(187797429int * 10, m, 1int, 614207759int);
    assert(mod_pow(10, 38567, 1263766531) == 614207759);
    lemma_fundamental_div_mod_converse(614207759int * 614207759int, m, 298513342int, 539245479int);
    assert(mod_pow(10, 77134, 1263766531) == 539245479);
    lemma_fundamental_div_mod_converse(539245479int * 539245479int, m, 230094467int, 259055464int);
    assert(mod_pow(10, 154268, 1263766531) == 259055464);
    lemma_fundamental_div_mod_converse(259055464int * 259055464int, m, 53102951int, 1257122315int);
    assert(mod_pow(10, 308536, 1263766531) == 1257122315);
    lemma_fundamental_div_mod_converse(1257122315int * 1257122315int, m, 1250513030int, 977560295int);
    lemma_fundamental_div_mod_converse(977560295int * 10, m, 7int, 929237233int);
    assert(mod_pow(10, 617073, 1263766531) == 929237233);
    lemma_fundamental_div_mod_converse(929237233int * 929237233int, m, 683260565int, 1194346274int);
    lemma_fundamental_div_mod_converse(1194346274int * 10, m, 9int, 569563961int);
    assert(mod_pow(10, 1234147, 1263766531) == 569563961);
    lemma_fundamental_div_mod_converse(569563961int * 569563961int, m, 256695439int, 1201457412int);
    assert(mod_pow(10, 2468294, 1263766531) == 1201457412);
    lemma_fundamental_div_mod_converse(1201457412int * 1201457412int, m, 1142220400int, 304305344int);
    assert(mod_pow(10, 4936588, 1263766531) == 304305344);
    lemma_fundamental_div_mod_converse(304305344int * 304305344int, m, 73274406int, 505252750int);
    assert(mod_pow(10, 9873176, 1263766531) == 505252750);
    lemma_fundamental_div_mod_converse(505252750int * 505252750int, m, 201999606int, 44575714int);
    assert(mod_pow(10, 19746352, 1263766531) == 44575714);
    lemma_fundamental_div_mod_converse(44575714int * 44575714int, m, 1572279int, 701015647int);
    assert(mod_pow(10, 39492704, 1263766531) == 701015647);
    lemma_fundamental_div_mod_converse(701015647int * 701015647int, m, 388855793int, 759964526int);
    assert(mod_pow(10, 78985408, 1263766531) == 759964526);
    lemma_fundamental_div_mod_converse(759964526int * 759964526int, m, 457003779int, 337684027int);
    assert(mod_pow(10, 157970816, 1263766531) == 337684027);
    lemma_fundamental_div_mod_converse(337684027int * 337684027int, m, 90230671int, 11464428int);
    assert(mod_pow(10, 315941632, 1263766531) == 11464428);
    lemma_fundamental_div_mod_converse(11464428int * 11464428int, m, 104001int, 126376653int);
    lemma_fundamental_div_mod_converse(126376653int * 10, m, 0int, 1263766530int);
    assert(mod_pow(10, 631883265, 1263766531) == 1263766530);
}

pub proof fn lemma_pow_1263766531_by_3()
    ensures
        mod_pow(10, 421255510, 1263766531) == 768732968,
{
    let m = 1263766531int;
    lemma_fundamental_div_mod_converse(1, m, 0, 1);
    assert(mod_pow(10, 0, 1263766531) == 1);
    lemma_fundamental_div_mod_converse(1int * 1int, m, 0int, 1int);
    lemma_fundamental_div_mod_converse(1int * 10, m, 0int, 10int);
    assert(mod_pow(10, 1, 1263766531) == 10);
    lemma_fundamental_div_mod_converse(10int * 10int, m, 0int, 100int);
    lemma_fundamental_div_mod_converse(100int * 10, m, 0int, 1000int);
    assert(mod_pow(10, 3, 1263766531) == 1000);
    lemma_fundamental_div_mod_converse(1000int * 1000int, m, 0int, 1000000int);
    assert(mod_pow(10, 6, 1263766531) == 1000000);
    lemma_fundamental_div_mod_converse(1000000int * 1000000int, m, 791int, 360673979int);
    assert(mod_pow(10, 12, 1263766531) == 360673979);
    lemma_fundamental_div_mod_converse(360673979int * 360673979int, m, 102934929int, 986631142int);
    lemma_fundamental_div_mod_converse(986631142int * 10, m, 7int, 1019945703int);
    assert(mod_pow(10, 25, 1263766531) == 1019945703);
    lemma_fundamental_div_mod_converse(1019945703int * 1019945703int, m, 823165680int, 1216308129int);
    assert(mod_pow(10, 50, 1263766531) == 1216308129);
    lemma_fundamental_div_mod_converse(1216308129int * 1216308129int, m, 1170631939int, 43647032int);
    assert(mod_pow(10, 100, 1263766531) == 43647032);
    lemma_fundamental_div_mod_converse(43647032int * 43647032int, m, 1507448int, 1072786136int);
    assert(mod_pow(10, 200, 1263766531) == 1072786136);
    lemma_fundamental_div_mod_converse(1072786136int * 1072786136int, m, 910666697int, 1028892389int);
    lemma_fundamental_div_mod_converse(1028892389int * 10, m, 8int, 178791642int);
    assert(mod_pow(10, 401, 1263766531) == 178791642);
    lemma_fundamental_div_mod_converse(178791642int * 178791642int, m, 25294586int, 46754998int);
    lemma_fundamental_div_mod_converse(46754998int * 10, m, 0int, 467549980int);
    assert(mod_pow(10, 803, 1263766531) == 467549980);
    lemma_fundamental_div_mod_converse(467549980int * 467549980int, m, 172977348int, 774460612int);
    assert(mod_pow(10, 1606, 1263766531) == 774460612);
    lemma_fundamental_div_mod_converse(774460612int * 774460612int, m, 474604465int, 1209253629int);
    lemma_fundamental_div_mod_converse(1209253629int * 10, m, 9int, 718637511int);
    assert(mod_pow(10, 3213, 1263766531) == 718637511);
    lemma_fundamental_div_mod_converse(718637511int * 718637511int, m, 408651328int, 1041171953int);
    lemma_fundamental_div_mod_converse(1041171953int * 10, m, 8int, 301587282int);
    assert(mod_pow(10, 6427, 1263766531) == 301587282);
    lemma_fundamental_div_mod_converse(301587282int * 301587282int, m, 71971275int, 125750499int);
    lemma_fundamental_div_mod_converse(125750499int * 10, m, 0int, 1257504990int);
    assert(mod_pow(10, 12855, 1263766531) == 1257504990);
    lemma_fundamental_div_mod_converse(1257504990int * 1257504990int, m, 1251274472int, 1066603468int);
    lemma_fundamental_div_mod_converse(1066603468int * 10, m, 8int, 555902432int);
    assert(mod_pow(10, 25711, 1263766531) == 555902432);
    lemma_fundamental_div_mod_converse(555902432int * 555902432int, m, 244528958int, 922809926int);
    assert(mod_pow(10, 51422, 1263766531) == 922809926);
    lemma_fundamental_div_mod_converse(922809926int * 922809926int, m, 673841361int, 288836785int);
    lemma_fundamental_div_mod_converse(288836785int * 10, m, 2int, 360834788int);
    assert(mod_pow(10, 102845, 1263766531) == 360834788);
    lemma_fundamental_div_mod_converse(360834788int * 360834788int, m, 103026738int, 948499066int);
    lemma_fundamental_div_mod_converse(948499066int * 10, m, 7int, 638624943int);
    assert(mod_pow(10, 205691, 1263766531) == 638624943);
    lemma_fundamental_div_mod_converse(638624943int * 638624943int, m, 322719274int, 431934755int);
    assert(mod_pow(10, 411382, 1263766531) == 431934755);
    lemma_fundamental_div_mod_converse(431934755int * 431934755int, m, 147628243int, 43174992int);
    assert(mod_pow(10, 822764, 1263766531) == 43174992);
    lemma_fundamental_div_mod_converse(43174992int * 43174992int, m, 1475019int, 289410975int);
    lemma_fundamental_div_mod_converse(289410975int * 10, m, 2int, 366576688int);
    assert(mod_pow(10, 1645529, 1263766531) == 366576688);
    lemma_fundamental_div_mod_converse(366576688int * 366576688int, m, 106331719int, 529152555int);
    assert(mod_pow(10, 3291058, 1263766531) == 529152555);
    lemma_fundamental_div_mod_converse(529152555int * 529152555int, m, 221561830int, 1161916295int);
    lemma_fundamental_div_mod_converse(1161916295int * 10, m, 9int, 245264171int);
    assert(mod_pow(10, 6582117, 1263766531) == 245264171);
    lemma_fundamental_div_mod_converse(245264171int * 245264171int, m, 47599388int, 125834213int);
    assert(mod_pow(10, 13164234, 1263766531) == 125834213);
    lemma_fundamental_div_mod_converse(125834213int * 125834213int, m, 12529410int, 150152659int);
    lemma_fundamental_div_mod_converse(150152659int * 10, m, 1int, 237760059int);
    assert(mod_pow(10, 26328469, 1263766531) == 237760059);
    lemma_fundamental_div_mod_converse(237760059int * 237760059int, m, 44731241int, 389788510int);
    assert(mod_pow(10, 52656938, 1263766531) == 389788510);
    lemma_fundamental_div_mod_converse(389788510int * 389788510int, m, 120224011int, 1203644259int);
    lemma_fundamental_div_mod_converse(1203644259int * 10, m, 9int, 662543811int);
    assert(mod_pow(10, 105313877, 1263766531) == 662543811);
    lemma_fundamental_div_mod_converse(662543811int * 662543811int, m, 347346041int, 203249950int);
    lemma_fundamental_div_mod_converse(203249950int * 10, m, 1int, 768732969int);
    assert(mod_pow(10, 210627755, 1263766531) == 768732969);
    lemma_fundamental_div_mod_converse(768732969int * 768732969int, m, 467610403int, 768732968int);
    assert(mod_pow(10, 421255510, 1263766531) == 768732968);
}

pub proof fn lemma_pow_1263766531_by_5()
    ensures
        mod_pow(10, 252753306, 1263766531) == 736637955,
{
    let m = 1263766531int;
    lemma_fundamental_div_mod_converse(1, m, 0, 1);
    assert(mod_pow(10, 0, 1263766531) == 1);
    lemma_fundamental_div_mod_converse(1int * 1int, m, 0int, 1int);
    lemma_fundamental_div_mod_converse(1int * 10, m, 0int, 10int);
    assert(mod_pow(10, 1, 1263766531) == 10);
    lemma_fundamental_div_mod_converse(10int * 10int, m, 0int, 100int);
    lemma_fundamental_div_mod_converse(100int * 10, m, 0int, 1000int);
    assert(mod_pow(10, 3, 1263766531) == 1000);
    lemma_fundamental_div_mod_converse(1000int * 1000int, m, 0int, 1000000int);
    lemma_fundamental_div_mod_converse(1000000int * 10, m, 0int, 10000000int);
    assert(mod_pow(10, 7, 1263766531) == 10000000);
    lemma_fundamental_div_mod_converse(10000000int * 10000000int, m, 79128int, 681935032int);
    lemma_fundamental_div_mod_converse(681935032int * 10, m, 5int, 500517665int);
    assert(mod_pow(10, 15, 1263766531) == 500517665);
    lemma_fundamental_div_mod_converse(500517665int * 500517665int, m, 198231181int, 1028649114int);
    assert(mod_pow(10, 30, 1263766531) == 1028649114);
    lemma_fundamental_div_mod_converse(1028649114int * 1028649114int, m, 837274111int, 978406055int);
    assert(mod_pow(10, 60, 1263766531) == 978406055);
    lemma_fundamental_div_mod_converse(978406055int * 978406055int, m, 757480424int, 721773881int);
    assert(mod_pow(10, 120, 1263766531) == 721773881);
    lemma_fundamental_div_mod_converse(721773881int * 721773881int, m, 412226089int, 810574902int);
    lemma_fundamental_div_mod_converse(810574902int * 10, m, 6int, 523149834int);
    assert(mod_pow(10, 241, 1263766531) == 523149834);
    lemma_fundamental_div_mod_converse(523149834int * 523149834int, m, 216563536int, 182413940int);
    assert(mod_pow(10, 482, 1263766531) == 182413940);
    lemma_fundamental_div_mod_converse(182413940int * 182413940int, m, 26329899int, 385513231int);
    assert(mod_pow(10, 964, 1263766531) == 385513231);
    lemma_fundamental_div_mod_converse(385513231int * 385513231int, m, 117601192int, 820754409int);
    assert(mod_pow(10, 1928, 1263766531) == 820754409);
    lemma_fundamental_div_mod_converse(820754409int * 820754409int, m, 533039753int, 359032438int);
    assert(mod_pow(10, 3856, 1263766531) == 359032438);
    lemma_fundamental_div_mod_converse(359032438int * 359032438int, m, 102000083int, 481601771int);
    lemma_fundamental_div_mod_converse(481601771int * 10, m, 3int, 1024718117int);
    assert(mod_pow(10, 7713, 1263766531) == 1024718117);
    lemma_fundamental_div_mod_converse(1024718117int * 1024718117int, m, 830887029int, 1015799290int);
    assert(mod_pow(10, 15426, 1263766531) == 1015799290);
    lemma_fundamental_div_mod_converse(1015799290int * 1015799290int, m, 816486409int, 853926921int);
    lemma_fundamental_div_mod_converse(853926921int * 10, m, 6int, 956670024int);
    assert(mod_pow(10, 30853, 1263766531) == 956670024);
    lemma_fundamental_div_mod_converse(956670024int * 956670024int, m, 724198269int, 649825737int);
    lemma_fundamental_div_mod_converse(649825737int * 10, m, 5int, 179424715int);
    assert(mod_pow(10, 61707, 1263766531) == 179424715);
    lemma_fundamental_div_mod_converse(179424715int * 179424715int, m, 25474031int, 565374764int);
    assert(mod_pow(10, 123414, 1263766531) == 565374764);
    lemma_fundamental_div_mod_converse(565374764int * 565374764int, m, 252933287int, 1081638299int);
    lemma_fundamental_div_mod_converse(1081638299int * 10, m, 8int, 706250742int);
    assert(mod_pow(10, 246829, 1263766531) == 706250742);
    lemma_fundamental_div_mod_converse(706250742int * 706250742int, m, 394685330int, 244860334int);
    assert(mod_pow(10, 493658, 1263766531) == 244860334);
    lemma_fundamental_div_mod_converse(244860334int * 244860334int, m, 47442768int, 830193748int);
    lemma_fundamental_div_mod_converse(830193748int * 10, m, 6int, 719338294int);
    assert(mod_pow(10, 987317, 1263766531) == 719338294);
    lemma_fundamental_div_mod_converse(719338294int * 719338294int, m, 409448714int, 300639302int);
    lemma_fundamental_div_mod_converse(300639302int * 10, m, 2int, 478859958int);
    assert(mod_pow(10, 1974635, 1263766531) == 478859958);
    lemma_fundamental_div_mod_converse(478859958int * 478859958int, m, 181447169int, 48861025int);
    assert(mod_pow(10, 3949270, 1263766531) == 48861025);
    lemma_fundamental_div_mod_converse(48861025int * 48861025int, m, 1889114int, 717607091int);
    assert(mod_pow(10, 7898540, 1263766531) == 717607091);
    lemma_fundamental_div_mod_converse(717607091int * 717607091int, m, 407480277int, 938273194int);
    lemma_fundamental_div_mod_converse(938273194int * 10, m, 7int, 536366223int);
    assert(mod_pow(10, 15797081, 1263766531) == 536366223);
    lemma_fundamental_div_mod_converse(536366223int * 536366223int, m, 227643886int, 1061706263int);
    lemma_fundamental_div_mod_converse(1061706263int * 10, m, 8int, 506930382int);
    assert(mod_pow(10, 31594163, 1263766531) == 506930382);
    lemma_fundamental_div_mod_converse(506930382int * 506930382int, m, 203343264int, 847168740int);
    assert(mod_pow(10, 63188326, 1263766531) == 847168740);
    lemma_fundamental_div_mod_converse(847168740int * 847168740int, m, 567901472int, 813953968int);
    lemma_fundamental_div_mod_converse(813953968int * 10, m, 6int, 556940494int);
    assert(mod_pow(10, 126376653, 1263766531) == 556940494);
    lemma_fundamental_div_mod_converse(556940494int * 556940494int, m, 245443051int, 736637955int);
    assert(mod_pow(10, 252753306, 1263766531) == 736637955);
}

pub proof fn lemma_pow_1263766531_by_13()
    ensures
        mod_pow(10, 97212810, 1263766531) == 79716405,
{
    let m = 1263766531int;
    lemma_fundamental_div_mod_converse(1, m, 0, 1);
    assert(mod_pow(10, 0, 1263766531) == 1);
    lemma_fundamental_div_mod_converse(1int * 1int, m, 0int, 1int);
    lemma_fundamental_div_mod_converse(1int * 10, m, 0int, 10int);
    assert(mod_pow(10, 1, 1263766531) == 10);
    lemma_fundamental_div_mod_converse(10int * 10int, m, 0int, 100int);
    assert(mod_pow(10, 2, 1263766531) == 100);
    lemma_fundamental_div_mod_converse(100int * 100int, m, 0int, 10000int);
    lemma_fundamental_div_mod_converse(10000int * 10, m, 0int, 100000int);
    assert(mod_pow(10, 5, 1263766531) == 100000);
    lemma_fundamental_div_mod_converse(100000int * 100000int, m, 7int, 1153634283int);
    lemma_fundamental_div_mod_converse(1153634283int * 10, m, 9int, 162444051int);
    assert(mod_pow(10, 11, 1263766531) == 162444051);
    lemma_fundamental_div_mod_converse(162444051int * 162444051int, m, 20880494int, 237344287int);
    lemma_fundamental_div_mod_converse(237344287int * 10, m, 1int, 1109676339int);
    assert(mod_pow(10, 23, 1263766531) == 1109676339);
    lemma_fundamental_div_mod_converse(1109676339int * 1109676339int, m, 974374259int, 144317392int);
    assert(mod_pow(10, 46, 1263766531) == 144317392);
    lemma_fundamental_div_mod_converse(144317392int * 144317392int, m, 16480504int, 264470040int);
    assert(mod_pow(10, 92, 1263766531) == 264470040);
    lemma_fundamental_div_mod_converse(264470040int * 264470040int, m, 55345983int, 1116906627int);
    lemma_fundamental_div_mod_converse(1116906627int * 10, m, 8int, 1058934022int);
    assert(mod_pow(10, 185, 1263766531) == 1058934022);
    lemma_fundamental_div_mod_converse(1058934022int * 1058934022int, m, 887300965int, 458094069int);
    assert(mod_pow(10, 370, 1263766531) == 458094069);
    lemma_fundamental_div_mod_converse(458094069int * 458094069int, m, 166051379int, 846380512int);
    lemma_fundamental_div_mod_converse(846380512int * 10, m, 6int, 881205934int);
    assert(mod_pow(10, 741, 1263766531) == 881205934);
    lemma_fundamental_div_mod_converse(881205934int * 881205934int, m, 614452020int, 335469736int);
    lemma_fundamental_div_mod_converse(335469736int * 10, m, 2int, 827164298int);
    assert(mod_pow(10, 1483, 1263766531) == 827164298);
    lemma_fundamental_div_mod_converse(827164298int * 827164298int, m, 541398081int, 1170405793int);
    assert(mod_pow(10, 2966, 1263766531) == 1170405793);
    lemma_fundamental_div_mod_converse(1170405793int * 1170405793int, m, 1083942078int, 568967431int);
    lemma_fundamental_div_mod_converse(568967431int * 10, m, 4int, 634608186int);
    assert(mod_pow(10, 5933, 1263766531) == 634608186);
    lemma_fundamental_div_mod_converse(634608186int * 634608186int, m, 318672428int, 879303328int);
    assert(mod_pow(10, 11866, 1263766531) == 879303328);
    lemma_fundamental_div_mod_converse(879303328int * 879303328int, m, 611801565int, 1171454569int);
    lemma_fundamental_div_mod_converse(1171454569int * 10, m, 9int, 340646911int);
    assert(mod_pow(10, 23733, 1263766531) == 340646911);
    lemma_fundamental_div_mod_converse(340646911int * 340646911int, m, 91821008int, 1220758673int);
    lemma_fundamental_div_mod_converse(1220758673int * 10, m, 9int, 833687951int);
    assert(mod_pow(10, 47467, 1263766531) == 833687951);
    lemma_fundamental_div_mod_converse(833687951int * 833687951int, m, 549971519int, 927147812int);
    assert(mod_pow(10, 94934, 1263766531) == 927147812);
    lemma_fundamental_div_mod_converse(927147812int * 927147812int, m, 680191351int, 1226913963int);
    assert(mod_pow(10, 189868, 1263766531) == 1226913963);
    lemma_fundamental_div_mod_converse(1226913963int * 1226913963int, m, 1191136049int, 10589350int);
    lemma_fundamental_div_mod_converse(10589350int * 10, m, 0int, 105893500int);
    assert(mod_pow(10, 379737, 1263766531) == 105893500);
    lemma_fundamental_div_mod_converse(105893500int * 105893500int, m, 8873026int, 54757194int);
    lemma_fundamental_div_mod_converse(54757194int * 10, m, 0int, 547571940int);
    assert(mod_pow(10, 759475, 1263766531) == 547571940);
    lemma_fundamental_div_mod_converse(547571940int * 547571940int, m, 237255080int, 61636120int);
    assert(mod_pow(10, 1518950, 1263766531) == 61636120);
    lemma_fundamental_div_mod_converse(61636120int * 61636120int, m, 3006102int, 192282238int);
    assert(mod_pow(10, 3037900, 1263766531) == 192282238);
    lemma_fundamental_div_mod_converse(192282238int * 192282238int, m, 29255766int, 1140720898int);
    assert(mod_pow(10, 6075800, 1263766531) == 1140720898);
    lemma_fundamental_div_mod_converse(1140720898int * 1140720898int, m, 1029655506int, 191256718int);
    lemma_fundamental_div_mod_converse(191256718int * 10, m, 1int, 648800649int);
    assert(mod_pow(10, 12151601, 1263766531) == 648800649);
    lemma_fundamental_div_mod_converse(648800649int * 648800649int, m, 333085480int, 556751321int);
    assert(mod_pow(10, 24303202, 1263766531) == 556751321);
    lemma_fundamental_div_mod_converse(556751321int * 556751321int, m, 245276343int, 305768908int);
    lemma_fundamental_div_mod_converse(305768908int * 10, m, 2int, 530156018int);
    assert(mod_pow(10, 48606405, 1263766531) == 530156018);
    lemma_fundamental_div_mod_converse(530156018int * 530156018int, m, 222402949int, 79716405int);
    assert(mod_pow(10, 97212810, 1263766531) == 79716405);
}

pub proof fn lemma_pow_1263766531_by_911()
    ensures
        mod_pow(10, 1387230, 1263766531) == 125721785,
{
    let m = 1263766531int;
    lemma_fundamental_div_mod_converse(1, m, 0, 1);
    assert(mod_pow(10, 0, 1263766531) == 1);
    lemma_fundamental_div_mod_converse(1int * 1int, m, 0int, 1int);
    lemma_fundamental_div_mod_converse(1int * 10, m, 0int, 10int);
    assert(mod_pow(10, 1, 1263766531) == 10);
    lemma_fundamental_div_mod_converse(10int * 10int, m, 0int, 100int);
    assert(mod_pow(10, 2, 1263766531) == 100);
    lemma_fundamental_div_mod_converse(100int * 100int, m, 0int, 10000int);
    lemma_fundamental_div_mod_converse(10000int * 10, m, 0int, 100000int);
    assert(mod_pow(10, 5, 1263766531) == 100000);
    lemma_fundamental_div_mod_converse(100000int * 100000int, m, 7int, 1153634283int);
    assert(mod_pow(10, 10, 1263766531) == 1153634283);
    lemma_fundamental_div_mod_converse(1153634283int * 1153634283int, m, 1053099624int, 293039745int);
    lemma_fundamental_div_mod_converse(293039745int * 10, m, 2int, 402864388int);
    assert(mod_pow(10, 21, 1263766531) == 402864388);
    lemma_fundamental_div_mod_converse(402864388int * 402864388int, m, 128425394int, 450926330int);
    assert(mod_pow(10, 42, 1263766531) == 450926330);
    lemma_fundamental_div_mod_converse(450926330int * 450926330int, m, 160895663int, 1204813847int);
    assert(mod_pow(10, 84, 1263766531) == 1204813847);
    lemma_fundamental_div_mod_converse(1204813847int * 1204813847int, m, 1148611211int, 329760368int);
    lemma_fundamental_div_mod_converse(329760368int * 10, m, 2int, 770070618int);
    assert(mod_pow(10, 169, 1263766531) == 770070618);
    lemma_fundamental_div_mod_converse(770070618int * 770070618int, m, 469239168int, 1154215716int);
    assert(mod_pow(10, 338, 1263766531) == 1154215716);
    lemma_fundamental_div_mod_converse(1154215716int * 1154215716int, m, 1054161418int, 721491698int);
    lemma_fundamental_div_mod_converse(721491698int * 10, m, 5int, 896084325int);
    assert(mod_pow(10, 677, 1263766531) == 896084325);
    lemma_fundamental_div_mod_converse(896084325int * 896084325int, m, 635376153int, 753770382int);
    assert(mod_pow(10, 1354, 1263766531) == 753770382);
    lemma_fundamental_div_mod_converse(753770382int * 753770382int, m, 449584456int, 429783788int);
    lemma_fundamental_div_mod_converse(429783788int * 10, m, 3int, 506538287int);
    assert(mod_pow(10, 2709, 1263766531) == 506538287);
    lemma_fundamental_div_mod_converse(506538287int * 506538287int, m, 203028826int, 1069871763int);
    assert(mod_pow(10, 5418, 1263766531) == 1069871763);
    lemma_fundamental_div_mod_converse(1069871763int * 1069871763int, m, 905725512int, 926289297int);
    lemma_fundamental_div_mod_converse(926289297int * 10, m, 7int, 416527253int);
    assert(mod_pow(10, 10837, 1263766531) == 416527253);
    lemma_fundamental_div_mod_converse(416527253int * 416527253int, m, 137284022int, 247058327int);
    lemma_fundamental_div_mod_converse(247058327int * 10, m, 1int, 1206816739int);
    assert(mod_pow(10, 21675, 1263766531) == 1206816739);
    lemma_fundamental_div_mod_converse(1206816739int * 1206816739int, m, 1152433306int, 198112635int);
    assert(mod_pow(10, 43350, 1263766531) == 198112635);
    lemma_fundamental_div_mod_converse(198112635int * 198112635int, m, 31056856int, 975756689int);
    lemma_fundamental_div_mod_converse(975756689int * 10, m, 7int, 911201173int);
    assert(mod_pow(10, 86701, 1263766531) == 911201173);
    lemma_fundamental_div_mod_converse(911201173int * 911201173int, m, 656994434int, 934087475int);
    lemma_fundamental_div_mod_converse(934087475int * 10, m, 7int, 494509033int);
    assert(mod_pow(10, 173403, 1263766531) == 494509033);
    lemma_fundamental_div_mod_converse(494509033int * 494509033int, m, 193500284int, 1060400285int);
    lemma_fundamental_div_mod_converse(1060400285int * 10, m, 8int, 493870602int);
    assert(mod_pow(10, 346807, 1263766531) == 493870602);
    lemma_fundamental_div_mod_converse(493870602int * 493870602int, m, 193000974int, 128241210int);
    lemma_fundamental_div_mod_converse(128241210int * 10, m, 1int, 18645569int);
    assert(mod_pow(10, 693615, 1263766531) == 18645569);
    lemma_fundamental_div_mod_converse(18645569int * 18645569int, m, 275096int, 125721785int);
    assert(mod_pow(10, 1387230, 1263766531) == 125721785);
}

pub proof fn lemma_pow_1263766531_by_3557()
    ensures
        mod_pow(10, 355290, 1263766531) == 938992354,
{
    let m = 1263766531int;
    lemma_fundamental_div_mod_converse(1, m, 0, 1);
    assert(mod_pow(10, 0, 1263766531) == 1);
    lemma_fundamental_div_mod_converse(1int * 1int, m, 0int, 1int);
    lemma_fundamental_div_mod_converse(1int * 10, m, 0int, 10int);
    assert(mod_pow(10, 1, 1263766531) == 10);
    lemma_fundamental_div_mod_converse(10int * 10int, m, 0int, 100int);
    assert(mod_pow(10, 2, 1263766531) == 100);
    lemma_fundamental_div_mod_converse(100int * 100int, m, 0int, 10000int);
    lemma_fundamental_div_mod_converse(10000int * 10, m, 0int, 100000int);
    assert(mod_pow(10, 5, 1263766531) == 100000);
    lemma_fundamental_div_mod_converse(100000int * 100000int, m, 7int, 1153634283int);
    assert(mod_pow(10, 10, 1263766531) == 1153634283);
    lemma_fundamental_div_mod_converse(1153634283int * 1153634283int, m, 1053099624int, 293039745int);
    lemma_fundamental_div_mod_converse(293039745int * 10, m, 2int, 402864388int);
    assert(mod_pow(10, 21, 1263766531) == 402864388);
    lemma_fundamental_div_mod_converse(402864388int * 402864388int, m, 128425394int, 450926330int);
    lemma_fundamental_div_mod_converse(450926330int * 10, m, 3int, 717963707int);
    assert(mod_pow(10, 43, 1263766531) == 717963707);
    lemma_fundamental_div_mod_converse(717963707int * 717963707int, m, 407885374int, 423564255int);
    assert(mod_pow(10, 86, 1263766531) == 423564255);
    lemma_fundamental_div_mod_converse(423564255int * 423564255int, m, 141961884int, 436800621int);
    lemma_fundamental_div_mod_converse(436800621int * 10, m, 3int, 576706617int);
    assert(mod_pow(10, 173, 1263766531) == 576706617);
    lemma_fundamental_div_mod_converse(576706617int * 576706617int, m, 263174022int, 1259327007int);
    assert(mod_pow(10, 346, 1263766531) == 1259327007);
    lemma_fundamental_div_mod_converse(1259327007int * 1259327007int, m, 1254903078int, 934295631int);
    lemma_fundamental_div_mod_converse(934295631int * 10, m, 7int, 496590593int);
    assert(mod_pow(10, 693, 1263766531) == 496590593);
    lemma_fundamental_div_mod_converse(496590593int * 496590593int, m, 195132732int, 1251898957int);
    lemma_fundamental_div_mod_converse(1251898957int * 10, m, 9int, 1145090791int);
    assert(mod_pow(10, 1387, 1263766531) == 1145090791);
    lemma_fundamental_div_mod_converse(1145090791int * 1145090791int, m, 1037559460int, 162572421int);
    lemma_fundamental_div_mod_converse(162572421int * 10, m, 1int, 361957679int);
    assert(mod_pow(10, 2775, 1263766531) == 361957679);
    lemma_fundamental_div_mod_converse(361957679int * 361957679int, m, 103668959int, 699255812int);
    lemma_fundamental_div_mod_converse(699255812int * 10, m, 5int, 673725465int);
    assert(mod_pow(10, 5551, 1263766531) == 673725465);
    lemma_fundamental_div_mod_converse(673725465int * 673725465int, m, 359169190int, 901086335int);
    assert(mod_pow(10, 11102, 1263766531) == 901086335);
    lemma_fundamental_div_mod_converse(901086335int * 901086335int, m, 642489386int, 574192259int);
    lemma_fundamental_div_mod_converse(574192259int * 10, m, 4int, 686856466int);
    assert(mod_pow(10, 22205, 1263766531) == 686856466);
    lemma_fundamental_div_mod_converse(686856466int * 686856466int, m, 373306139int, 600975347int);
    lemma_fundamental_div_mod_converse(600975347int * 10, m, 4int, 954687346int);
    assert(mod_pow(10, 44411, 1263766531) == 954687346);
    lemma_fundamental_div_mod_converse(954687346int * 954687346int, m, 721199609int, 588037337int);
    assert(mod_pow(10, 88822, 1263766531) == 588037337);
    lemma_fundamental_div_mod_converse(588037337int * 588037337int, m, 273616923int, 103447456int);
    lemma_fundamental_div_mod_converse(103447456int * 10, m, 0int, 1034474560int);
    assert(mod_pow(10, 177645, 1263766531) == 1034474560);
    lemma_fundamental_div_mod_converse(1034474560int * 1034474560int, m, 846784266int, 938992354int);
    assert(mod_pow(10, 355290, 1263766531) == 938992354);
}

/// A Lucas–Pratt witness for 1263766531: generator 10, and n - 1 = 2 * 3 * 5 * 13 * 911 * 3557.
pub proof fn lemma_witness_1263766531()
    ensures
        pratt_witness(1263766531, 10, seq![2nat, 3nat, 5nat, 13nat, 911nat, 3557nat]),
{
    lemma_prime_3();
    lemma_prime_5();
    lemma_prime_13();
    lemma_prime_911();
    lemma_prime_3557();
    lemma_pow_1263766531_full();
    lemma_pow_1263766531_by_2();
    lemma_pow_1263766531_by_3();
    lemma_pow_1263766531_by_5();
    lemma_pow_1263766531_by_13();
    lemma_pow_1263766531_by_911();
    lemma_pow_1263766531_by_3557();
    let fs = seq![2nat, 3nat, 5nat, 13nat, 911nat, 3557nat];
    assert(product(fs) == 1263766530nat) by {
        assert(product(Seq::<nat>::empty()) == 1);
        assert(seq![3557nat].len() == 1 && seq![3557nat][0] == 3557nat);
        assert(seq![3557nat].drop_first() =~= Seq::<nat>::empty());
        assert(product(seq![3557nat].drop_first()) == 1nat);
        assert(product(seq![3557nat]) == seq![3557nat][0] * product(seq![3557nat].drop_first()));
        assert(product(seq![3557nat]) == 3557nat);
        assert(seq![911nat, 3557nat].len() == 2 && seq![911nat, 3557nat][0] == 911nat);
        assert(seq![911nat, 3557nat].drop_first() =~= seq![3557nat]);
        assert(product(seq![911nat, 3557nat].drop_first()) == 3557nat);
        assert(product(seq![911nat, 3557nat]) == seq![911nat, 3557nat][0] * product(seq![911nat, 3557nat].drop_first()));
        assert(product(seq![911nat, 3557nat]) == 3240427nat);
        assert(seq![13nat, 911nat, 3557nat].len() == 3 && seq![13nat, 911nat, 3557nat][0] == 13nat);
        assert(seq![13nat, 911nat, 3557nat].drop_first() =~= seq![911nat, 3557nat]);
        assert(product(seq![13nat, 911nat, 3557nat].drop_first()) == 3240427nat);
        assert(product(seq![13nat, 911nat, 3557nat]) == seq![13nat, 911nat, 3557nat][0] * product(seq![13nat, 911nat, 3557nat].drop_first()));
        assert(product(seq![13nat, 911nat, 3557nat]) == 42125551nat);
        assert(seq![5nat, 13nat, 911nat, 3557nat].len() == 4 && seq![5nat, 13nat, 911nat, 3557nat][0] == 5nat);
        assert(seq![5nat, 13nat, 911nat, 3557nat].drop_first() =~= seq![13nat, 911nat, 3557nat]);
        assert(product(seq![5nat, 13nat, 911nat, 3557nat].drop_first()) == 42125551nat);
        assert(product(seq![5nat, 13nat, 911nat, 3557nat]) == seq![5nat, 13nat, 911nat, 3557nat][0] * product(seq![5nat, 13nat, 911nat, 3557nat].drop_first()));
        assert(product(seq![5nat, 13nat, 911nat, 3557nat]) == 210627755nat);
        assert(seq![3nat, 5nat, 13nat, 911nat, 3557nat].len() == 5 && seq![3nat, 5nat, 13nat, 911nat, 3557nat][0] == 3nat);
        assert(seq![3nat, 5nat, 13nat, 911nat, 3557nat].drop_first() =~= seq![5nat, 13nat, 911nat, 3557nat]);
        assert(product(seq![3nat, 5nat, 13nat, 911nat, 3557nat].drop_first()) == 210627755nat);
        assert(product(seq![3nat, 5nat, 13nat, 911nat, 3557nat]) == seq![3nat, 5nat, 13nat, 911nat, 3557nat][0] * product(seq![3nat, 5nat, 13nat, 911nat, 3557nat].drop_first()));
        assert(product(seq![3nat, 5nat, 13nat, 911nat, 3557nat]) == 631883265nat);
        assert(seq![2nat, 3nat, 5nat, 13nat, 911nat, 3557nat].len() == 6 && seq![2nat, 3nat, 5nat, 13nat, 911nat, 3557nat][0] == 2nat);
        assert(seq![2nat, 3nat, 5nat, 13nat, 911nat, 3557nat].drop_first() =~= seq![3nat, 5nat, 13nat, 911nat, 3557nat]);
        assert(product(seq![2nat, 3nat, 5nat, 13nat, 911nat, 3557nat].drop_first()) == 631883265nat);
        assert(product(seq![2nat, 3nat, 5nat, 13nat, 911nat, 3557nat]) == seq![2nat, 3nat, 5nat, 13nat, 911nat, 3557nat][0] * product(seq![2nat, 3nat, 5nat, 13nat, 911nat, 3557nat].drop_first()));
        assert(product(seq![2nat, 3nat, 5nat, 13nat, 911nat, 3557nat]) == 1263766530nat);
    }
    assert forall|i: int| 0 <= i < fs.len() implies mod_pow(10, ((1263766530nat) / fs[i]) as nat, 1263766531) != 1 && is_prime(#[trigger] fs[i]) by {
        if i == 0 {
            assert(fs[i] == 2);
            lemma_fundamental_div_mod_converse(1263766530int, 2int, 631883265int, 0int);
        } else if i == 1 {
            assert(fs[i] == 3);
            lemma_fundamental_div_mod_converse(1263766530int, 3int, 421255510int, 0int);
        } else if i == 2 {
            assert(fs[i] == 5);
            lemma_fundamental_div_mod_converse(1263766530int, 5int, 252753306int, 0int);
        } else if i == 3 {
            assert(fs[i] == 13);
            lemma_fundamental_div_mod_converse(1263766530int, 13int, 97212810int, 0int);
        } else if i == 4 {
            assert(fs[i] == 911);
            lemma_fundamental_div_mod_converse(1263766530int, 911int, 1387230int, 0int);
        } else if i == 5 {
            assert(fs[i] == 3557);
            lemma_fundamental_div_mod_converse(1263766530int, 3557int, 355290int, 0int);
        }
    }
}

/// 1263766531 is prime.
pub proof fn lemma_prime_1263766531()
    ensures
        is_prime(1263766531),
{
    lemma_witness_1263766531();
    lemma_pratt_prime(1263766531, 10, seq![2nat, 3nat, 5nat, 13nat, 911nat, 3557nat]);
}

pub proof fn lemma_pow_11465965001_full()
    ensures
        mod_pow(3, 11465965000, 11465965001) == 1,
{
    let m = 11465965001int;
    lemma_fundamental_div_mod_converse(1, m, 0, 1);
    assert(mod_pow(3, 0, 11465965001) == 1);
    lemma_fundamental_div_mod_converse(1int * 1int, m, 0int, 1int);
    lemma_fundamental_div_mod_converse(1int * 3, m, 0int, 3int);
    assert(mod_pow(3, 1, 11465965001) == 3);
    lemma_fundamental_div_mod_converse(3int * 3int, m, 0int, 9int);
    assert(mod_pow(3, 2, 11465965001) == 9);
    lemma_fundamental_div_mod_converse(9int * 9int, m, 0int, 81int);
    lemma_fundamental_div_mod_converse(81int * 3, m, 0int, 243int);
    assert(mod_pow(3, 5, 11465965001) == 243);
    lemma_fundamental_div_mod_converse(243int * 243int, m, 0int, 59049int);
    assert(mod_pow(3, 10, 11465965001) == 59049);
    lemma_fundamental_div_mod_converse(59049int * 59049int, m, 0int, 3486784401int);
    lemma_fundamental_div_mod_converse(3486784401int * 3, m, 0int, 10460353203int);
    assert(mod_pow(3, 21, 11465965001) == 10460353203);
    lemma_fundamental_div_mod_converse(10460353203int * 10460353203int, m, 9542937652int, 6955241557int);
    assert(mod_pow(3, 42, 11465965001) == 6955241557);
    lemma_fundamental_div_mod_converse(6955241557int * 6955241557int, m, 4219041756int, 4166202493int);
    lemma_fundamental_div_mod_converse(4166202493int * 3, m, 1int, 1032642478int);
    assert(mod_pow(3, 85, 11465965001) == 1032642478);
    lemma_fundamental_div_mod_converse(1032642478int * 1032642478int, m, 93001372int, 10972999112int);
    assert(mod_pow(3, 170, 11465965001) == 10972999112);
    lemma_fundamental_div_mod_converse(10972999112int * 10972999112int, m, 10501227720int, 6901760824int);
    lemma_fundamental_div_mod_converse(6901760824int * 3, m, 1int, 9239317471int);
    assert(mod_pow(3, 341, 11465965001) == 9239317471);
    lemma_fundamental_div_mod_converse(9239317471int * 9239317471int, m, 7445076565int, 5870534276int);
    lemma_fundamental_div_mod_converse(5870534276int * 3, m, 1int, 6145637827int);
    assert(mod_pow(3, 683, 11465965001) == 6145637827);
    lemma_fundamental_div_mod_converse(6145637827int * 6145637827int, m, 3293997870int, 9864734059int);
    assert(mod_pow(3, 1366, 11465965001) == 9864734059);
    lemma_fundamental_div_mod_converse(9864734059int * 9864734059int, m, 8487116265int, 886774216int);
    lemma_fundamental_div_mod_converse(886774216int * 3, m, 0int, 2660322648int);
    assert(mod_pow(3, 2733, 11465965001) == 2660322648);
    lemma_fundamental_div_mod_converse(2660322648int * 2660322648int, m, 617245612int, 7248906292int);
    lemma_fundamental_div_mod_converse(7248906292int * 3, m, 1int, 10280753875int);
    assert(mod_pow(3, 5467, 11465965001) == 10280753875);
    lemma_fundamental_div_mod_converse(10280753875int * 10280753875int, m, 9218055369int, 93375256int);
    assert(mod_pow(3, 10934, 11465965001) == 93375256);
    lemma_fundamental_div_mod_converse(93375256int * 93375256int, m, 760419int, 792970117int);
    lemma_fundamental_div_mod_converse(792970117int * 3, m, 0int, 2378910351int);
    assert(mod_pow(3, 21869, 11465965001) == 2378910351);
    lemma_fundamental_div_mod_converse(2378910351int * 2378910351int, m, 493566346int, 9187486855int);
    lemma_fundamental_div_mod_converse(9187486855int * 3, m, 2int, 4630530563int);
    assert(mod_pow(3, 43739, 11465965001) == 4630530563);
    lemma_fundamental_div_mod_converse(4630530563int * 4630530563int, m, 1870040009int, 1213371960int);
    assert(mod_pow(3, 87478, 11465965001) == 1213371960);
    lemma_fundamental_div_mod_converse(1213371960int * 1213371960int, m, 128403628int, 8664817972int);
    assert(mod_pow(3, 174956, 11465965001) == 8664817972);
    lemma_fundamental_div_mod_converse(8664817972int * 8664817972int, m, 6547994039int, 9963563745int);
    lemma_fundamental_div_mod_converse(9963563745int * 3, m, 2int, 6958761233int);
    assert(mod_pow(3, 349913, 11465965001) == 6958761233);
    lemma_fundamental_div_mod_converse(6958761233int * 6958761233int, m, 4223312899int, 9697832390int);
    assert(mod_pow(3, 699826, 11465965001) == 9697832390);
    lemma_fundamental_div_mod_converse(9697832390int * 9697832390int, m, 8202358288int, 8662833812int);
    lemma_fundamental_div_mod_converse(8662833812int * 3, m, 2int, 3056571434int);
    assert(mod_pow(3, 1399653, 11465965001) == 3056571434);
    lemma_fundamental_div_mod_converse(3056571434int * 3056571434int, m, 814814010int, 10160352346int);
    lemma_fundamental_div_mod_converse(10160352346int * 3, m, 2int, 7549127036int);
    assert(mod_pow(3, 2799307, 11465965001) == 7549127036);
    lemma_fundamental_div_mod_converse(7549127036int * 7549127036int, m, 4970302892int, 1625062404int);
    lemma_fundamental_div_mod_converse(1625062404int * 3, m, 0int, 4875187212int);
    assert(mod_pow(3, 5598615, 11465965001) == 4875187212);
    lemma_fundamental_div_mod_converse(4875187212int * 4875187212int, m, 2072869605int, 9481638339int);
    lemma_fundamental_div_mod_converse(9481638339int * 3, m, 2int, 5512985015int);
    assert(mod_pow(3, 11197231, 11465965001) == 5512985015);
    lemma_fundamental_div_mod_converse(5512985015int * 5512985015int, m, 2650714856int, 9087795369int);
    assert(mod_pow(3, 22394462, 11465965001) == 9087795369);
    lemma_fundamental_div_mod_converse(9087795369int * 9087795369int, m, 7202884769int, 1227876392int);
    lemma_fundamental_div_mod_converse(1227876392int * 3, m, 0int, 3683629176int);
    assert(mod_pow(3, 44788925, 11465965001) == 3683629176);
    lemma_fundamental_div_mod_converse(3683629176int * 3683629176int, m, 1183426244int, 11309552732int);
    lemma_fundamental_div_mod_converse(11309552732int * 3, m, 2int, 10996728194int);
    assert(mod_pow(3, 89577851, 11465965001) == 10996728194);
    lemma_fundamental_div_mod_converse(10996728194int * 10996728194int, m, 10546694583int, 7800212053int);
    lemma_fundamental_div_mod_converse(7800212053int * 3, m, 2int, 468706157int);
    assert(mod_pow(3, 179155703, 11465965001) == 468706157);
    lemma_fundamental_div_mod_converse(468706157int * 468706157int, m, 19159788int, 2975128861int);
    assert(mod_pow(3, 358311406, 11465965001) == 2975128861);
    lemma_fundamental_div_mod_converse(2975128861int * 2975128861int, m, 771970936int, 5589946385int);
    assert(mod_pow(3, 716622812, 11465965001) == 5589946385);
    lemma_fundamental_div_mod_converse(5589946385int * 5589946385int, m, 2725239487int, 9889373738int);
    lemma_fundamental_div_mod_converse(9889373738int * 3, m, 2int, 6736191212int);
    assert(mod_pow(3, 1433245625, 11465965001) == 6736191212);
    lemma_fundamental_div_mod_converse(6736191212int * 6736191212int, m, 3957475192int, 828273752int);
    assert(mod_pow(3, 2866491250, 11465965001) == 828273752);
    lemma_fundamental_div_mod_converse(828273752int * 828273752int, m, 59832504int, 11465965000int);
    assert(mod_pow(3, 5732982500, 11465965001) == 11465965000);
    lemma_fundamental_div_mod_converse(11465965000int * 11465965000int, m, 11465964999int, 1int);
    assert(mod_pow(3, 11465965000, 11465965001) == 1);
}

pub proof fn lemma_pow_11465965001_by_2()
    ensures
        mod_pow(3, 5732982500, 11465965001) == 11465965000,
{
    let m = 11465965001int;
    lemma_fundamental_div_mod_converse(1, m, 0, 1);
    assert(mod_pow(3, 0, 11465965001) == 1);
    lemma_fundamental_div_mod_converse(1int * 1int, m, 0int, 1int);
    lemma_fundamental_div_mod_converse(1int * 3, m, 0int, 3int);
    assert(mod_pow(3, 1, 11465965001) == 3);
    lemma_fundamental_div_mod_converse(3int * 3int, m, 0int, 9int);
    assert(mod_pow(3, 2, 11465965001) == 9);
    lemma_fundamental_div_mod_converse(9int * 9int, m, 0int, 81int);
    lemma_fundamental_div_mod_converse(81int * 3, m, 0int, 243int);
    assert(mod_pow(3, 5, 11465965001) == 243);
    lemma_fundamental_div_mod_converse(243int * 243int, m, 0int, 59049int);
    assert(mod_pow(3, 10, 11465965001) == 59049);
    lemma_fundamental_div_mod_converse(59049int * 59049int, m, 0int, 3486784401int);
    lemma_fundamental_div_mod_converse(3486784401int * 3, m, 0int, 10460353203int);
    assert(mod_pow(3, 21, 11465965001) == 10460353203);
    lemma_fundamental_div_mod_converse(10460353203int * 10460353203int, m, 9542937652int, 6955241557int);
    assert(mod_pow(3, 42, 11465965001) == 6955241557);
    lemma_fundamental_div_mod_converse(6955241557int * 6955241557int, m, 4219041756int, 4166202493int);
    lemma_fundamental_div_mod_converse(4166202493int * 3, m, 1int, 1032642478int);
    assert(mod_pow(3, 85, 11465965001) == 1032642478);
    lemma_fundamental_div_mod_converse(1032642478int * 1032642478int, m, 93001372int, 10972999112int);
    assert(mod_pow(3, 170, 11465965001) == 10972999112);
    lemma_fundamental_div_mod_converse(10972999112int * 10972999112int, m, 10501227720int, 6901760824int);
    lemma_fundamental_div_mod_converse(6901760824int * 3, m, 1int, 9239317471int);
    assert(mod_pow(3, 341, 11465965001) == 9239317471);
    lemma_fundamental_div_mod_converse(9239317471int * 9239317471int, m, 7445076565int, 5870534276int);
    lemma_fundamental_div_mod_converse(5870534276int * 3, m, 1int, 6145637827int);
    assert(mod_pow(3, 683, 11465965001) == 6145637827);
    lemma_fundamental_div_mod_converse(6145637827int * 6145637827int, m, 3293997870int, 9864734059int);
    assert(mod_pow(3, 1366, 11465965001) == 9864734059);
    lemma_fundamental_div_mod_converse(9864734059int * 9864734059int, m, 8487116265int, 886774216int);
    lemma_fundamental_div_mod_converse(886774216int * 3, m, 0int, 2660322648int);
    assert(mod_pow(3, 2733, 11465965001) == 2660322648);
    lemma_fundamental_div_mod_converse(2660322648int * 2660322648int, m, 617245612int, 7248906292int);
    lemma_fundamental_div_mod_converse(7248906292int * 3, m, 1int, 10280753875int);
    assert(mod_pow(3, 5467, 11465965001) == 10280753875);
    lemma_fundamental_div_mod_converse(10280753875int * 10280753875int, m, 9218055369int, 93375256int);
    assert(mod_pow(3, 10934, 11465965001) == 93375256);
    lemma_fundamental_div_mod_converse(93375256int * 93375256int, m, 760419int, 792970117int);
    lemma_fundamental_div_mod_converse(792970117int * 3, m, 0int, 2378910351int);
    assert(mod_pow(3, 21869, 11465965001) == 2378910351);
    lemma_fundamental_div_mod_converse(2378910351int * 2378910351int, m, 493566346int, 9187486855int);
    lemma_fundamental_div_mod_converse(9187486855int * 3, m, 2int, 4630530563int);
    assert(mod_pow(3, 43739, 11465965001) == 4630530563);
    lemma_fundamental_div_mod_converse(4630530563int * 4630530563int, m, 1870040009int, 1213371960int);
    assert(mod_pow(3, 87478, 11465965001) == 1213371960);
    lemma_fundamental_div_mod_converse(1213371960int * 1213371960int, m, 128403628int, 8664817972int);
    assert(mod_pow(3, 174956, 11465965001) == 8664817972);
    lemma_fundamental_div_mod_converse(8664817972int * 8664817972int, m, 6547994039int, 9963563745int);
    lemma_fundamental_div_mod_converse(9963563745int * 3, m, 2int, 6958761233int);
    assert(mod_pow(3, 349913, 11465965001) == 6958761233);
    lemma_fundamental_div_mod_converse(6958761233int * 6958761233int, m, 4223312899int, 9697832390int);
    assert(mod_pow(3, 699826, 11465965001) == 9697832390);
    lemma_fundamental_div_mod_converse(9697832390int * 9697832390int, m, 8202358288int, 8662833812int);
    lemma_fundamental_div_mod_converse(8662833812int * 3, m, 2int, 3056571434int);
    assert(mod_pow(3, 1399653, 11465965001) == 3056571434);
    lemma_fundamental_div_mod_converse(3056571434int * 3056571434int, m, 814814010int, 10160352346int);
    lemma_fundamental_div_mod_converse(10160352346int * 3, m, 2int, 7549127036int);
    assert(mod_pow(3, 2799307, 11465965001) == 7549127036);
    lemma_fundamental_div_mod_converse(7549127036int * 7549127036int, m, 4970302892int, 1625062404int);
    lemma_fundamental_div_mod_converse(1625062404int * 3, m, 0int, 4875187212int);
    assert(mod_pow(3, 5598615, 11465965001) == 4875187212);
    lemma_fundamental_div_mod_converse(4875187212int * 4875187212int, m, 2072869605int, 9481638339int);
    lemma_fundamental_div_mod_converse(9481638339int * 3, m, 2int, 5512985015int);
    assert(mod_pow(3, 11197231, 11465965001) == 5512985015);
    lemma_fundamental_div_mod_converse(5512985015int * 5512985015int, m, 2650714856int, 9087795369int);
    assert(mod_pow(3, 22394462, 11465965001) == 9087795369);
    lemma_fundamental_div_mod_converse(9087795369int * 9087795369int, m, 7202884769int, 1227876392int);
    lemma_fundamental_div_mod_converse(1227876392int * 3, m, 0int, 3683629176int);
    assert(mod_pow(3, 44788925, 11465965001) == 3683629176);
    lemma_fundamental_div_mod_converse(3683629176int * 3683629176int, m, 1183426244int, 11309552732int);
    lemma_fundamental_div_mod_converse(11309552732int * 3, m, 2int, 10996728194int);
    assert(mod_pow(3, 89577851, 11465965001) == 10996728194);
    lemma_fundamental_div_mod_converse(10996728194int * 10996728194int, m, 10546694583int, 7800212053int);
    lemma_fundamental_div_mod_converse(7800212053int * 3, m, 2int, 468706157int);
    assert(mod_pow(3, 179155703, 11465965001) == 468706157);
    lemma_fundamental_div_mod_converse(468706157int * 468706157int, m, 19159788int, 2975128861int);
    assert(mod_pow(3, 358311406, 11465965001) == 2975128861);
    lemma_fundamental_div_mod_converse(2975128861int * 2975128861int, m, 771970936int, 5589946385int);
    assert(mod_pow(3, 716622812, 11465965001) == 5589946385);
    lemma_fundamental_div_mod_converse(5589946385int * 5589946385int, m, 2725239487int, 9889373738int);
    lemma_fundamental_div_mod_converse(9889373738int * 3, m, 2int, 6736191212int);
    assert(mod_pow(3, 1433245625, 11465965001) == 6736191212);
    lemma_fundamental_div_mod_converse(6736191212int * 6736191212int, m, 3957475192int, 828273752int);
    assert(mod_pow(3, 2866491250, 11465965001) == 828273752);
    lemma_fundamental_div_mod_converse(828273752int * 828273752int, m, 59832504int, 11465965000int);
    assert(mod_pow(3, 5732982500, 11465965001) == 11465965000);
}

pub proof fn lemma_pow_11465965001_by_5()
    ensures
        mod_pow(3, 2293193000, 11465965001) == 27926394,
{
    let m = 11465965001int;
    lemma_fundamental_div_mod_converse(1, m, 0, 1);
    assert(mod_pow(3, 0, 11465965001) == 1);
    lemma_fundamental_div_mod_converse(1int * 1int, m, 0int, 1int);
    lemma_fundamental_div_mod_converse(1int * 3, m, 0int, 3int);
    assert(mod_pow(3, 1, 11465965001) == 3);
    lemma_fundamental_div_mod_converse(3int * 3int, m, 0int, 9int);
    assert(mod_pow(3, 2, 11465965001) == 9);
    lemma_fundamental_div_mod_converse(9int * 9int, m, 0int, 81int);
    assert(mod_pow(3, 4, 11465965001) == 81);
    lemma_fundamental_div_mod_converse(81int * 81int, m, 0int, 6561int);
    assert(mod_pow(3, 8, 11465965001) == 6561);
    lemma_fundamental_div_mod_converse(6561int * 6561int, m, 0int, 43046721int);
    lemma_fundamental_div_mod_converse(43046721int * 3, m, 0int, 129140163int);
    assert(mod_pow(3, 17, 11465965001) == 129140163);
    lemma_fundamental_div_mod_converse(129140163int * 129140163int, m, 1454494int, 4401502075int);
    assert(mod_pow(3, 34, 11465965001) == 4401502075);
    lemma_fundamental_div_mod_converse(4401502075int * 4401502075int, m, 1689628436int, 4358937189int);
    assert(mod_pow(3, 68, 11465965001) == 4358937189);
    lemma_fundamental_div_mod_converse(4358937189int * 4358937189int, m, 1657107222int, 7290884499int);
    assert(mod_pow(3, 136, 11465965001) == 7290884499);
    lemma_fundamental_div_mod_converse(7290884499int * 7290884499int, m, 4636068291int, 10906597710int);
    lemma_fundamental_div_mod_converse(10906597710int * 3, m, 2int, 9787863128int);
    assert(mod_pow(3, 273, 11465965001) == 9787863128);
    lemma_fundamental_div_mod_converse(9787863128int * 9787863128int, m, 8355359937int, 4062379447int);
    assert(mod_pow(3, 546, 11465965001) == 4062379447);
    lemma_fundamental_div_mod_converse(4062379447int * 4062379447int, m, 1439296803int, 2158834006int);
    lemma_fundamental_div_mod_converse(2158834006int * 3, m, 0int, 6476502018int);
    assert(mod_pow(3, 1093, 11465965001) == 6476502018);
    lemma_fundamental_div_mod_converse(6476502018int * 6476502018int, m, 3658224875int, 6620472449int);
    assert(mod_pow(3, 2186, 11465965001) == 6620472449);
    lemma_fundamental_div_mod_converse(6620472449int * 6620472449int, m, 3822674798int, 3895312803int);
    lemma_fundamental_div_mod_converse(3895312803int * 3, m, 1int, 219973408int);
    assert(mod_pow(3, 4373, 11465965001) == 219973408);
    lemma_fundamental_div_mod_converse(219973408int * 219973408int, m, 4220168int, 1640794296int);
    lemma_fundamental_div_mod_converse(1640794296int * 3, m, 0int, 4922382888int);
    assert(mod_pow(3, 8747, 11465965001) == 4922382888);
    lemma_fundamental_div_mod_converse(4922382888int * 4922382888int, m, 2113197911int, 8362907633int);
    lemma_fundamental_div_mod_converse(8362907633int * 3, m, 2int, 2156792897int);
    assert(mod_pow(3, 17495, 11465965001) == 2156792897);
    lemma_fundamental_div_mod_converse(2156792897int * 2156792897int, m, 405701186int, 1009461423int);
    lemma_fundamental_div_mod_converse(1009461423int * 3, m, 0int, 3028384269int);
    assert(mod_pow(3, 34991, 11465965001) == 3028384269);
    lemma_fundamental_div_mod_converse(3028384269int * 3028384269int, m, 799855160int, 10297409201int);
    assert(mod_pow(3, 69982, 11465965001) == 10297409201);
    lemma_fundamental_div_mod_converse(10297409201int * 10297409201int, m, 9247946966int, 9579321435int);
    lemma_fundamental_div_mod_converse(9579321435int * 3, m, 2int, 5806034303int);
    assert(mod_pow(3, 139965, 11465965001) == 5806034303);
    lemma_fundamental_div_mod_converse(5806034303int * 5806034303int, m, 2940008479int, 4755452330int);
    assert(mod_pow(3, 279930, 11465965001) == 4755452330);
    lemma_fundamental_div_mod_converse(4755452330int * 4755452330int, m, 1972300356int, 9546588544int);
    lemma_fundamental_div_mod_converse(9546588544int * 3, m, 2int, 5707835630int);
    assert(mod_pow(3, 559861, 11465965001) == 5707835630);
    lemma_fundamental_div_mod_converse(5707835630int * 5707835630int, m, 2841399531int, 2793682369int);
    lemma_fundamental_div_mod_converse(2793682369int * 3, m, 0int, 8381047107int);
    assert(mod_pow(3, 1119723, 11465965001) == 8381047107);
    lemma_fundamental_div_mod_converse(8381047107int * 8381047107int, m, 6126126375int, 2300068074int);
    assert(mod_pow(3, 2239446, 11465965001) == 2300068074);
    lemma_fundamental_div_mod_converse(2300068074int * 2300068074int, m, 461392751int, 10352961725int);
    assert(mod_pow(3, 4478892, 11465965001) == 10352961725);
    lemma_fundamental_div_mod_converse(10352961725int * 10352961725int, m, 9347997876int, 3676637749int);
    lemma_fundamental_div_mod_converse(3676637749int * 3, m, 0int, 11029913247int);
    assert(mod_pow(3, 8957785, 11465965001) == 11029913247);
    lemma_fundamental_div_mod_converse(11029913247int * 11029913247int, m, 10610444583int, 2618043426int);
    assert(mod_pow(3, 17915570, 11465965001) == 2618043426);
    lemma_fundamental_div_mod_converse(2618043426int * 2618043426int, m, 597782339int, 3231900137int);
    assert(mod_pow(3, 35831140, 11465965001) == 3231900137);
    lemma_fundamental_div_mod_converse(3231900137int * 3231900137int, m, 910972473int, 3248201296int);
    lemma_fundamental_div_mod_converse(3248201296int * 3, m, 0int, 9744603888int);
    assert(mod_pow(3, 71662281, 11465965001) == 9744603888);
    lemma_fundamental_div_mod_converse(9744603888int * 9744603888int, m, 8281667083int, 10412954461int);
    assert(mod_pow(3, 143324562, 11465965001) == 10412954461);
    lemma_fundamental_div_mod_converse(10412954461int * 10412954461int, m, 9456650233int, 8583305288int);
    lemma_fundamental_div_mod_converse(8583305288int * 3, m, 2int, 2817985862int);
    assert(mod_pow(3, 286649125, 11465965001) == 2817985862);
    lemma_fundamental_div_mod_converse(2817985862int * 2817985862int, m, 692575314int, 7551297730int);
    assert(mod_pow(3, 573298250, 11465965001) == 7551297730);
    lemma_fundamental_div_mod_converse(7551297730int * 7551297730int, m, 4973161648int, 6819671252int);
    assert(mod_pow(3, 1146596500, 11465965001) == 6819671252);
    lemma_fundamental_div_mod_converse(6819671252int * 6819671252int, m, 4056171110int, 27926394int);
    assert(mod_pow(3, 2293193000, 11465965001) == 27926394);
}

pub proof fn lemma_pow_11465965001_by_7()
    ensures
        mod_pow(3, 1637995000, 11465965001) == 4573270631,
{
    let m = 11465965001int;
    lemma_fundamental_div_mod_converse(1, m, 0, 1);
    assert(mod_pow(3, 0, 11465965001) == 1);
    lemma_fundamental_div_mod_converse(1int * 1int, m, 0int, 1int);
    lemma_fundamental_div_mod_converse(1int * 3, m, 0int, 3int);
    assert(mod_pow(3, 1, 11465965001) == 3);
    lemma_fundamental_div_mod_converse(3int * 3int, m, 0int, 9int);
    lemma_fundamental_div_mod_converse(9int * 3, m, 0int, 27int);
    assert(mod_pow(3, 3, 11465965001) == 27);
    lemma_fundamental_div_mod_converse(27int * 27int, m, 0int, 729int);
    assert(mod_pow(3, 6, 11465965001) == 729);
    lemma_fundamental_div_mod_converse(729int * 729int, m, 0int, 531441int);
    assert(mod_pow(3, 12, 11465965001) == 531441);
    lemma_fundamental_div_mod_converse(531441int * 531441int, m, 24int, 7246376457int);
    assert(mod_pow(3, 24, 11465965001) == 7246376457);
    lemma_fundamental_div_mod_converse(7246376457int * 7246376457int, m, 4579638238int, 2414564611int);
    assert(mod_pow(3, 48, 11465965001) == 2414564611);
    lemma_fundamental_div_mod_converse(2414564611int * 2414564611int, m, 508472009int, 1511424312int);
    lemma_fundamental_div_mod_converse(1511424312int * 3, m, 0int, 4534272936int);
    assert(mod_pow(3, 97, 11465965001) == 4534272936);
    lemma_fundamental_div_mod_converse(4534272936int * 4534272936int, m, 1793100803int, 7679064293int);
    lemma_fundamental_div_mod_converse(7679064293int * 3, m, 2int, 105262877int);
    assert(mod_pow(3, 195, 11465965001) == 105262877);
    lemma_fundamental_div_mod_converse(105262877int * 105262877int, m, 966362int, 404020767int);
    assert(mod_pow(3, 390, 11465965001) == 404020767);
    lemma_fundamental_div_mod_converse(404020767int * 404020767int, m, 14236288int, 215112001int);
    lemma_fundamental_div_mod_converse(215112001int * 3, m, 0int, 645336003int);
    assert(mod_pow(3, 781, 11465965001) == 645336003);
    lemma_fundamental_div_mod_converse(645336003int * 645336003int, m, 36321282int, 8564564727int);
    assert(mod_pow(3, 1562, 11465965001) == 8564564727);
    lemma_fundamental_div_mod_converse(8564564727int * 8564564727int, m, 6397348060int, 7797336469int);
    assert(mod_pow(3, 3124, 11465965001) == 7797336469);
    lemma_fundamental_div_mod_converse(7797336469int * 7797336469int, m, 5302515401int, 5667907560int);
    assert(mod_pow(3, 6248, 11465965001) == 5667907560);
    lemma_fundamental_div_mod_converse(5667907560int * 5667907560int, m, 2801785641int, 8694802959int);
    assert(mod_pow(3, 12496, 11465965001) == 8694802959);
    lemma_fundamental_div_mod_converse(8694802959int * 8694802959int, m, 6593391702int, 2819333979int);
    lemma_fundamental_div_mod_converse(2819333979int * 3, m, 0int, 8458001937int);
    assert(mod_pow(3, 24993, 11465965001) == 8458001937);
    lemma_fundamental_div_mod_converse(8458001937int * 8458001937int, m, 6239143130int, 1486158839int);
    lemma_fundamental_div_mod_converse(1486158839int * 3, m, 0int, 4458476517int);
    assert(mod_pow(3, 49987, 11465965001) == 4458476517);
    lemma_fundamental_div_mod_converse(4458476517int * 4458476517int, m, 1733653717int, 9664892572int);
    lemma_fundamental_div_mod_converse(9664892572int * 3, m, 2int, 6062747714int);
    assert(mod_pow(3, 99975, 11465965001) == 6062747714);
    lemma_fundamental_div_mod_converse(6062747714int * 6062747714int, m, 3205740628int, 680465168int);
    assert(mod_pow(3, 199950, 11465965001) == 680465168);
    lemma_fundamental_div_mod_converse(680465168int * 680465168int, m, 40383242int, 5462354982int);
    lemma_fundamental_div_mod_converse(5462354982int * 3, m, 1int, 4921099945int);
    assert(mod_pow(3, 399901, 11465965001) == 4921099945);
    lemma_fundamental_div_mod_converse(4921099945int * 4921099945int, m, 2112096510int, 6284756515int);
    assert(mod_pow(3, 799802, 11465965001) == 6284756515);
    lemma_fundamental_div_mod_converse(6284756515int * 6284756515int, m, 3444818159int, 6931692066int);
    assert(mod_pow(3, 1599604, 11465965001) == 6931692066);
    lemma_fundamental_div_mod_converse(6931692066int * 6931692066int, m, 4190519933int, 10076483423int);
    assert(mod_pow(3, 3199208, 11465965001) == 10076483423);
    lemma_fundamental_div_mod_converse(10076483423int * 10076483423int, m, 8855383577int, 9681608352int);
    lemma_fundamental_div_mod_converse(9681608352int * 3, m, 2int, 6112895054int);
    assert(mod_pow(3, 6398417, 11465965001) == 6112895054);
    lemma_fundamental_div_mod_converse(6112895054int * 6112895054int, m, 3258991802int, 939741114int);
    lemma_fundamental_div_mod_converse(939741114int * 3, m, 0int, 2819223342int);
    assert(mod_pow(3, 12796835, 11465965001) == 2819223342);
    lemma_fundamental_div_mod_converse(2819223342int * 2819223342int, m, 693183718int, 2226595246int);
    lemma_fundamental_div_mod_converse(2226595246int * 3, m, 0int, 6679785738int);
    assert(mod_pow(3, 25593671, 11465965001) == 6679785738);
    lemma_fundamental_div_mod_converse(6679785738int * 6679785738int, m, 3891476862int, 3694897782int);
    lemma_fundamental_div_mod_converse(3694897782int * 3, m, 0int, 11084693346int);
    assert(mod_pow(3, 51187343, 11465965001) == 11084693346);
    lemma_fundamental_div_mod_converse(11084693346int * 11084693346int, m, 10716099915int, 2247600801int);
    lemma_fundamental_div_mod_converse(2247600801int * 3, m, 0int, 6742802403int);
    assert(mod_pow(3, 102374687, 11465965001) == 6742802403);
    lemma_fundamental_div_mod_converse(6742802403int * 6742802403int, m, 3965247080int, 6305127329int);
    lemma_fundamental_div_mod_converse(6305127329int * 3, m, 1int, 7449416986int);
    assert(mod_pow(3, 204749375, 11465965001) == 7449416986);
    lemma_fundamental_div_mod_converse(7449416986int * 7449416986int, m, 4839872913int, 1559406283int);
    assert(mod_pow(3, 409498750, 11465965001) == 1559406283);
    lemma_fundamental_div_mod_converse(1559406283int * 1559406283int, m, 212084020int, 4868492069int);
    assert(mod_pow(3, 818997500, 11465965001) == 4868492069);
    lemma_fundamental_div_mod_converse(4868492069int * 4868492069int, m, 2067180130int, 4573270631int);
    assert(mod_pow(3, 1637995000, 11465965001) == 4573270631);
}

pub proof fn lemma_pow_11465965001_by_327599()
    ensures
        mod_pow(3, 35000, 11465965001) == 7601491529,
{
    let m = 11465965001int;
    lemma_fundamental_div_mod_converse(1, m, 0, 1);
    assert(mod_pow(3, 0, 11465965001) == 1);
    lemma_fundamental_div_mod_converse(1int * 1int, m, 0int, 1int);
    lemma_fundamental_div_mod_converse(1int * 3, m, 0int, 3int);
    assert(mod_pow(3, 1, 11465965001) == 3);
    lemma_fundamental_div_mod_converse(3int * 3int, m, 0int, 9int);
    assert(mod_pow(3, 2, 11465965001) == 9);
    lemma_fundamental_div_mod_converse(9int * 9int, m, 0int, 81int);
    assert(mod_pow(3, 4, 11465965001) == 81);
    lemma_fundamental_div_mod_converse(81int * 81int, m, 0int, 6561int);
    assert(mod_pow(3, 8, 11465965001) == 6561);
    lemma_fundamental_div_mod_converse(6561int * 6561int, m, 0int, 43046721int);
    lemma_fundamental_div_mod_converse(43046721int * 3, m, 0int, 129140163int);
    assert(mod_pow(3, 17, 11465965001) == 129140163);
    lemma_fundamental_div_mod_converse(129140163int * 129140163int, m, 1454494int, 4401502075int);
    assert(mod_pow(3, 34, 11465965001) == 4401502075);
    lemma_fundamental_div_mod_converse(4401502075int * 4401502075int, m, 1689628436int, 4358937189int);
    assert(mod_pow(3, 68, 11465965001) == 4358937189);
    lemma_fundamental_div_mod_converse(4358937189int * 4358937189int, m, 1657107222int, 7290884499int);
    assert(mod_pow(3, 136, 11465965001) == 7290884499);
    lemma_fundamental_div_mod_converse(7290884499int * 7290884499int, m, 4636068291int, 10906597710int);
    lemma_fundamental_div_mod_converse(10906597710int * 3, m, 2int, 9787863128int);
    assert(mod_pow(3, 273, 11465965001) == 9787863128);
    lemma_fundamental_div_mod_converse(9787863128int * 9787863128int, m, 8355359937int, 4062379447int);
    assert(mod_pow(3, 546, 11465965001) == 4062379447);
    lemma_fundamental_div_mod_converse(4062379447int * 4062379447int, m, 1439296803int, 2158834006int);
    lemma_fundamental_div_mod_converse(2158834006int * 3, m, 0int, 6476502018int);
    assert(mod_pow(3, 1093, 11465965001) == 6476502018);
    lemma_fundamental_div_mod_converse(6476502018int * 6476502018int, m, 3658224875int, 6620472449int);
    lemma_fundamental_div_mod_converse(6620472449int * 3, m, 1int, 8395452346int);
    assert(mod_pow(3, 2187, 11465965001) == 8395452346);
    lemma_fundamental_div_mod_converse(8395452346int * 8395452346int, m, 6147203492int, 659920224int);
    lemma_fundamental_div_mod_converse(659920224int * 3, m, 0int, 1979760672int);
    assert(mod_pow(3, 4375, 11465965001) == 1979760672);
    lemma_fundamental_div_mod_converse(1979760672int * 1979760672int, m, 341833619int, 6778722965int);
    assert(mod_pow(3, 8750, 11465965001) == 6778722965);
    lemma_fundamental_div_mod_converse(6778722965int * 6778722965int, m, 4007607299int, 8132248926int);
    assert(mod_pow(3, 17500, 11465965001) == 8132248926);
    lemma_fundamental_div_mod_converse(8132248926int * 8132248926int, m, 5767806947int, 7601491529int);
    assert(mod_pow(3, 35000, 11465965001) == 7601491529);
}

/// A Lucas–Pratt witness for 11465965001: generator 3, and n - 1 = 2^3 * 5^4 * 7 * 327599.
pub proof fn lemma_witness_11465965001()
    ensures
        pratt_witness(11465965001, 3, seq![2nat, 2nat, 2nat, 5nat, 5nat, 5nat, 5nat, 7nat, 327599nat]),
{
    lemma_prime_5();
    lemma_prime_7();
    lemma_prime_327599();
    lemma_pow_11465965001_full();
    lemma_pow_11465965001_by_2();
    lemma_pow_11465965001_by_5();
    lemma_pow_11465965001_by_7();
    lemma_pow_11465965001_by_327599();
    let fs = seq![2nat, 2nat, 2nat, 5nat, 5nat, 5nat, 5nat, 7nat, 327599nat];
    assert(product(fs) == 11465965000nat) by {
        assert(product(Seq::<nat>::empty()) == 1);
        assert(seq![327599nat].len() == 1 && seq![327599nat][0] == 327599nat);
        assert(seq![327599nat].drop_first() =~= Seq::<nat>::empty());
        assert(product(seq![327599nat].drop_first()) == 1nat);
        assert(product(seq![327599nat]) == seq![327599nat][0] * product(seq![327599nat].drop_first()));
        assert(product(seq![327599nat]) == 327599nat);
        assert(seq![7nat, 327599nat].len() == 2 && seq![7nat, 327599nat][0] == 7nat);
        assert(seq![7nat, 327599nat].drop_first() =~= seq![327599nat]);
        assert(product(seq![7nat, 327599nat].drop_first()) == 327599nat);
        assert(product(seq![7nat, 327599nat]) == seq![7nat, 327599nat][0] * product(seq![7nat, 327599nat].drop_first()));
        assert(product(seq![7nat, 327599nat]) == 2293193nat);
        assert(seq![5nat, 7nat, 327599nat].len() == 3 && seq![5nat, 7nat, 327599nat][0] == 5nat);
        assert(seq![5nat, 7nat, 327599nat].drop_first() =~= seq![7nat, 327599nat]);
        assert(product(seq![5nat, 7nat, 327599nat].drop_first()) == 2293193nat);
        assert(product(seq![5nat, 7nat, 327599nat]) == seq![5nat, 7nat, 327599nat][0] * product(seq![5nat, 7nat, 327599nat].drop_first()));
        assert(product(seq![5nat, 7nat, 327599nat]) == 11465965nat);
        assert(seq![5nat, 5nat, 7nat, 327599nat].len() == 4 && seq![5nat, 5nat, 7nat, 327599nat][0] == 5nat);
        assert(seq![5nat, 5nat, 7nat, 327599nat].drop_first() =~= seq![5nat, 7nat, 327599nat]);
        assert(product(seq![5nat, 5nat, 7nat, 327599nat].drop_first()) == 11465965nat);
        assert(product(seq![5nat, 5nat, 7nat, 327599nat]) == seq![5nat, 5nat, 7nat, 327599nat][0] * product(seq![5nat, 5nat, 7nat, 327599nat].drop_first()));
        assert(product(seq![5nat, 5nat, 7nat, 327599nat]) == 57329825nat);
        assert(seq![5nat, 5nat, 5nat, 7nat, 327599nat].len() == 5 && seq![5nat, 5nat, 5nat, 7nat, 327599nat][0] == 5nat);
        assert(seq![5nat, 5nat, 5nat, 7nat, 327599nat].drop_first() =~= seq![5nat, 5nat, 7nat, 327599nat]);
        assert(product(seq![5nat, 5nat, 5nat, 7nat, 327599nat].drop_first()) == 57329825nat);
        assert(product(seq![5nat, 5nat, 5nat, 7nat, 327599nat]) == seq![5nat, 5nat, 5nat, 7nat, 327599nat][0] * product(seq![5nat, 5nat, 5nat, 7nat, 327599nat].drop_first()));
        assert(product(seq![5nat, 5nat, 5nat, 7nat, 327599nat]) == 286649125nat);
        assert(seq![5nat, 5nat, 5nat, 5nat, 7nat, 327599nat].len() == 6 && seq![5nat, 5nat, 5nat, 5nat, 7nat, 327599nat][0] == 5nat);
        assert(seq![5nat, 5nat, 5nat, 5nat, 7nat, 327599nat].drop_first() =~= seq![5nat, 5nat, 5nat, 7nat, 327599nat]);
        assert(product(seq![5nat, 5nat, 5nat, 5nat, 7nat, 327599nat].drop_first()) == 286649125nat);
        assert(product(seq![5nat, 5nat, 5nat, 5nat, 7nat, 327599nat]) == seq![5nat, 5nat, 5nat, 5nat, 7nat, 327599nat][0] * product(seq![5nat, 5nat, 5nat, 5nat, 7nat, 327599nat].drop_first()));
        assert(product(seq![5nat, 5nat, 5nat, 5nat, 7nat, 327599nat]) == 1433245625nat);
        assert(seq![2nat, 5nat, 5nat, 5nat, 5nat, 7nat, 327599nat].len() == 7 && seq![2nat, 5nat, 5nat, 5nat, 5nat, 7nat, 327599nat][0] == 2nat);
        assert(seq![2nat, 5nat, 5nat, 5nat, 5nat, 7nat, 327599nat].drop_first() =~= seq![5nat, 5nat, 5nat, 5nat, 7nat, 327599nat]);
        assert(product(seq![2nat, 5nat, 5nat, 5nat, 5nat, 7nat, 327599nat].drop_first()) == 1433245625nat);
        assert(product(seq![2nat, 5nat, 5nat, 5nat, 5nat, 7nat, 327599nat]) == seq![2nat, 5nat, 5nat, 5nat, 5nat, 7nat, 327599nat][0] * product(seq![2nat, 5nat, 5nat, 5nat, 5nat, 7nat, 327599nat].drop_first()));
        assert(product(seq![2nat, 5nat, 5nat, 5nat, 5nat, 7nat, 327599nat]) == 2866491250nat);
        assert(seq![2nat, 2nat, 5nat, 5nat, 5nat, 5nat, 7nat, 327599nat].len() == 8 && seq![2nat, 2nat, 5nat, 5nat, 5nat, 5nat, 7nat, 327599nat][0] == 2nat);
        assert(seq![2nat, 2nat, 5nat, 5nat, 5nat, 5nat, 7nat, 327599nat].drop_first() =~= seq![2nat, 5nat, 5nat, 5nat, 5nat, 7nat, 327599nat]);
        assert(product(seq![2nat, 2nat, 5nat, 5nat, 5nat, 5nat, 7nat, 327599nat].drop_first()) == 2866491250nat);
        assert(product(seq![2nat, 2nat, 5nat, 5nat, 5nat, 5nat, 7nat, 327599nat]) == seq![2nat, 2nat, 5nat, 5nat, 5nat, 5nat, 7nat, 327599nat][0] * product(seq![2nat, 2nat, 5nat, 5nat, 5nat, 5nat, 7nat, 327599nat].drop_first()));
        assert(product(seq![2nat, 2nat, 5nat, 5nat, 5nat, 5nat, 7nat, 327599nat]) == 5732982500nat);
        assert(seq![2nat, 2nat, 2nat, 5nat, 5nat, 5nat, 5nat, 7nat, 327599nat].len() == 9 && seq![2nat, 2nat, 2nat, 5nat, 5nat, 5nat, 5nat, 7nat, 327599nat][0] == 2nat);
        assert(seq![2nat, 2nat, 2nat, 5nat, 5nat, 5nat, 5nat, 7nat, 327599nat].drop_first() =~= seq![2nat, 2nat, 5nat, 5nat, 5nat, 5nat, 7nat, 327599nat]);
        assert(product(seq![2nat, 2nat, 2nat, 5nat, 5nat, 5nat, 5nat, 7nat, 327599nat].drop_first()) == 5732982500nat);
        assert(product(seq![2nat, 2nat, 2nat, 5nat, 5nat, 5nat, 5nat, 7nat, 327599nat]) == seq![2nat, 2nat, 2nat, 5nat, 5nat, 5nat, 5nat, 7nat, 327599nat][0] * product(seq![2nat, 2nat, 2nat, 5nat, 5nat, 5nat, 5nat, 7nat, 327599nat].drop_first()));
        assert(product(seq![2nat, 2nat, 2nat, 5nat, 5nat, 5nat, 5nat, 7nat, 327599nat]) == 11465965000nat);
    }
    assert forall|i: int| 0 <= i < fs.len() implies mod_pow(3, ((11465965000nat) / fs[i]) as nat, 11465965001) != 1 && is_prime(#[trigger] fs[i]) by {
        if i == 0 {
            assert(fs[i] == 2);
            lemma_fundamental_div_mod_converse(11465965000int, 2int, 5732982500int, 0int);
        } else if i == 1 {
            assert(fs[i] == 2);
            lemma_fundamental_div_mod_converse(11465965000int, 2int, 5732982500int, 0int);
        } else if i == 2 {
            assert(fs[i] == 2);
            lemma_fundamental_div_mod_converse(11465965000int, 2int, 5732982500int, 0int);
        } else if i == 3 {
            assert(fs[i] == 5);
            lemma_fundamental_div_mod_converse(11465965000int, 5int, 2293193000int, 0int);
        } else if i == 4 {
            assert(fs[i] == 5);
            lemma_fundamental_div_mod_converse(11465965000int, 5int, 2293193000int, 0int);
        } else if i == 5 {
            assert(fs[i] == 5);
            lemma_fundamental_div_mod_converse(11465965000int, 5int, 2293193000int, 0int);
        } else if i == 6 {
            assert(fs[i] == 5);
            lemma_fundamental_div_mod_converse(11465965000int, 5int, 2293193000int, 0int);
        } else if i == 7 {
            assert(fs[i] == 7);
            lemma_fundamental_div_mod_converse(11465965000int, 7int, 1637995000int, 0int);
        } else if i == 8 {
            assert(fs[i] == 327599);
            lemma_fundamental_div_mod_converse(11465965000int, 327599int, 35000int, 0int);
        }
    }
}

/// 11465965001 is prime.
pub proof fn lemma_prime_11465965001()
    ensures
        is_prime(11465965001),
{
    lemma_witness_11465965001();
    lemma_pratt_prime(11465965001, 3, seq![2nat, 2nat, 2nat, 5nat, 5nat, 5nat, 5nat, 7nat, 327599nat]);
}

pub proof fn lemma_pow_35385462869_full()
    ensures
        mod_pow(2, 35385462868, 35385462869) == 1,
{
    let m = 35385462869int;
    lemma_fundamental_div_mod_converse(1, m, 0, 1);
    assert(mod_pow(2, 0, 35385462869) == 1);
    lemma_fundamental_div_mod_converse(1int * 1int, m, 0int, 1int);
    lemma_fundamental_div_mod_converse(1int * 2, m, 0int, 2int);
    assert(mod_pow(2, 1, 35385462869) == 2);
    lemma_fundamental_div_mod_converse(2int * 2int, m, 0int, 4int);
    assert(mod_pow(2, 2, 35385462869) == 4);
    lemma_fundamental_div_mod_converse(4int * 4int, m, 0int, 16int);
    assert(mod_pow(2, 4, 35385462869) == 16);
    lemma_fundamental_div_mod_converse(16int * 16int, m, 0int, 256int);
    assert(mod_pow(2, 8, 35385462869) == 256);
    lemma_fundamental_div_mod_converse(256int * 256int, m, 0int, 65536int);
    assert(mod_pow(2, 16, 35385462869) == 65536);
    lemma_fundamental_div_mod_converse(65536int * 65536int, m, 0int, 4294967296int);
    assert(mod_pow(2, 32, 35385462869) == 4294967296);
    lemma_fundamental_div_mod_converse(4294967296int * 4294967296int, m, 521308542int, 17476024618int);
    lemma_fundamental_div_mod_converse(17476024618int * 2, m, 0int, 34952049236int);
    assert(mod_pow(2, 65, 35385462869) == 34952049236);
    lemma_fundamental_div_mod_converse(34952049236int * 34952049236int, m, 34523944206int, 2927496682int);
    lemma_fundamental_div_mod_converse(2927496682int * 2, m, 0int, 5854993364int);
    assert(mod_pow(2, 131, 35385462869) == 5854993364);
    lemma_fundamental_div_mod_converse(5854993364int * 5854993364int, m, 968786176int, 33635537552int);
    lemma_fundamental_div_mod_converse(33635537552int * 2, m, 1int, 31885612235int);
    assert(mod_pow(2, 263, 35385462869) == 31885612235);
    lemma_fundamental_div_mod_converse(31885612235int * 31885612235int, m, 28731919414int, 21584456459int);
    lemma_fundamental_div_mod_converse(21584456459int * 2, m, 1int, 7783450049int);
    assert(mod_pow(2, 527, 35385462869) == 7783450049);
    lemma_fundamental_div_mod_converse(7783450049int * 7783450049int, m, 1712061670int, 12054971171int);
    assert(mod_pow(2, 1054, 35385462869) == 12054971171);
    lemma_fundamental_div_mod_converse(12054971171int * 12054971171int, m, 4106837049int, 27218077660int);
    lemma_fundamental_div_mod_converse(27218077660int * 2, m, 1int, 19050692451int);
    assert(mod_pow(2, 2109, 35385462869) == 19050692451);
    lemma_fundamental_div_mod_converse(19050692451int * 19050692451int, m, 10256440171int, 23547876802int);
    assert(mod_pow(2, 4218, 35385462869) == 23547876802);
    lemma_fundamental_div_mod_converse(23547876802int * 23547876802int, m, 15670347564int, 11923146088int);
    assert(mod_pow(2, 8436, 35385462869) == 11923146088);
    lemma_fundamental_div_mod_converse(11923146088int * 11923146088int, m, 4017508917int, 27409800871int);
    lemma_fundamental_div_mod_converse(27409800871int * 2, m, 1int, 19434138873int);
    assert(mod_pow(2, 16873, 35385462869) == 19434138873);
    lemma_fundamental_div_mod_converse(19434138873int * 19434138873int, m, 10673472186int, 14042448495int);
    assert(mod_pow(2, 33746, 35385462869) == 14042448495);
    lemma_fundamental_div_mod_converse(14042448495int * 14042448495int, m, 5572637567int, 25254765302int);
    assert(mod_pow(2, 67492, 35385462869) == 25254765302);
    lemma_fundamental_div_mod_converse(25254765302int * 25254765302int, m, 18024440511int, 22613265145int);
    assert(mod_pow(2, 134984, 35385462869) == 22613265145);
    lemma_fundamental_div_mod_converse(22613265145int * 22613265145int, m, 14451125379int, 4203818674int);
    lemma_fundamental_div_mod_converse(4203818674int * 2, m, 0int, 8407637348int);
    assert(mod_pow(2, 269969, 35385462869) == 8407637348);
    lemma_fundamental_div_mod_converse(8407637348int * 8407637348int, m, 1997666839int, 19417372013int);
    lemma_fundamental_div_mod_converse(19417372013int * 2, m, 1int, 3449281157int);
    assert(mod_pow(2, 539939, 35385462869) == 3449281157);
    lemma_fundamental_div_mod_converse(3449281157int * 3449281157int, m, 336226787int, 13083586746int);
    assert(mod_pow(2, 1079878, 35385462869) == 13083586746);
    lemma_fundamental_div_mod_converse(13083586746int * 13083586746int, m, 4837586631int, 33285564177int);
    lemma_fundamental_div_mod_converse(33285564177int * 2, m, 1int, 31185665485int);
    assert(mod_pow(2, 2159757, 35385462869) == 31185665485);
    lemma_fundamental_div_mod_converse(31185665485int * 31185665485int, m, 27484329803int, 18913700418int);
    assert(mod_pow(2, 4319514, 35385462869) == 18913700418);
    lemma_fundamental_div_mod_converse(18913700418int * 18913700418int, m, 10109464014int, 8964678558int);
    lemma_fundamental_div_mod_converse(8964678558int * 2, m, 0int, 17929357116int);
    assert(mod_pow(2, 8639029, 35385462869) == 17929357116);
    lemma_fundamental_div_mod_converse(17929357116int * 17929357116int, m, 9084573735int, 12524691741int);
    assert(mod_pow(2, 17278058, 35385462869) == 12524691741);
    lemma_fundamental_div_mod_converse(12524691741int * 12524691741int, m, 4433117175int, 17184936006int);
    assert(mod_pow(2, 34556116, 35385462869) == 17184936006);
    lemma_fundamental_div_mod_converse(17184936006int * 17184936006int, m, 8345857354int, 20377643410int);
    assert(mod_pow(2, 69112232, 35385462869) == 20377643410);
    lemma_fundamental_div_mod_converse(20377643410int * 20377643410int, m, 11734998422int, 15661835382int);
    assert(mod_pow(2, 138224464, 35385462869) == 15661835382);
    lemma_fundamental_div_mod_converse(15661835382int * 15661835382int, m, 6932029925int, 14982731099int);
    assert(mod_pow(2, 276448928, 35385462869) == 14982731099);
    lemma_fundamental_div_mod_converse(14982731099int * 14982731099int, m, 6343911114int, 16258321735int);
    lemma_fundamental_div_mod_converse(16258321735int * 2, m, 0int, 32516643470int);
    assert(mod_pow(2, 552897857, 35385462869) == 32516643470);
    lemma_fundamental_div_mod_converse(32516643470int * 32516643470int, m, 29880408982int, 11998551542int);
    assert(mod_pow(2, 1105795714, 35385462869) == 11998551542);
    lemma_fundamental_div_mod_converse(11998551542int * 11998551542int, m, 4068485401int, 15876502295int);
    lemma_fundamental_div_mod_converse(15876502295int * 2, m, 0int, 31753004590int);
    assert(mod_pow(2, 2211591429, 35385462869) == 31753004590);
    lemma_fundamental_div_mod_converse(31753004590int * 31753004590int, m, 28493432577int, 28772584687int);
    assert(mod_pow(2, 4423182858, 35385462869) == 28772584687);
    lemma_fundamental_div_mod_converse(28772584687int * 28772584687int, m, 23395529193int, 11079853252int);
    lemma_fundamental_div_mod_converse(11079853252int * 2, m, 0int, 22159706504int);
    assert(mod_pow(2, 8846365717, 35385462869) == 22159706504);
    lemma_fundamental_div_mod_converse(22159706504int * 22159706504int, m, 13877240892int, 35385462868int);
    assert(mod_pow(2, 17692731434, 35385462869) == 35385462868);
    lemma_fundamental_div_mod_converse(35385462868int * 35385462868int, m, 35385462867int, 1int);
    assert(mod_pow(2, 35385462868, 35385462869) == 1);
}

pub proof fn lemma_pow_35385462869_by_2()
    ensures
        mod_pow(2, 17692731434, 35385462869) == 35385462868,
{
    let m = 35385462869int;
    lemma_fundamental_div_mod_converse(1, m, 0, 1);
    assert(mod_pow(2, 0, 35385462869) == 1);
    lemma_fundamental_div_mod_converse(1int * 1int, m, 0int, 1int);
    lemma_fundamental_div_mod_converse(1int * 2, m, 0int, 2int);
    assert(mod_pow(2, 1, 35385462869) == 2);
    lemma_fundamental_div_mod_converse(2int * 2int, m, 0int, 4int);
    assert(mod_pow(2, 2, 35385462869) == 4);
    lemma_fundamental_div_mod_converse(4int * 4int, m, 0int, 16int);
    assert(mod_pow(2, 4, 35385462869) == 16);
    lemma_fundamental_div_mod_converse(16int * 16int, m, 0int, 256int);
    assert(mod_pow(2, 8, 35385462869) == 256);
    lemma_fundamental_div_mod_converse(256int * 256int, m, 0int, 65536int);
    assert(mod_pow(2, 16, 35385462869) == 65536);
    lemma_fundamental_div_mod_converse(65536int * 65536int, m, 0int, 4294967296int);
    assert(mod_pow(2, 32, 35385462869) == 4294967296);
    lemma_fundamental_div_mod_converse(4294967296int * 4294967296int, m, 521308542int, 17476024618int);
    lemma_fundamental_div_mod_converse(17476024618int * 2, m, 0int, 34952049236int);
    assert(mod_pow(2, 65, 35385462869) == 34952049236);
    lemma_fundamental_div_mod_converse(34952049236int * 34952049236int, m, 34523944206int, 2927496682int);
    lemma_fundamental_div_mod_converse(2927496682int * 2, m, 0int, 5854993364int);
    assert(mod_pow(2, 131, 35385462869) == 5854993364);
    lemma_fundamental_div_mod_converse(5854993364int * 5854993364int, m, 968786176int, 33635537552int);
    lemma_fundamental_div_mod_converse(33635537552int * 2, m, 1int, 31885612235int);
    assert(mod_pow(2, 263, 35385462869) == 31885612235);
    lemma_fundamental_div_mod_converse(31885612235int * 31885612235int, m, 28731919414int, 21584456459int);
    lemma_fundamental_div_mod_converse(21584456459int * 2, m, 1int, 7783450049int);
    assert(mod_pow(2, 527, 35385462869) == 7783450049);
    lemma_fundamental_div_mod_converse(7783450049int * 7783450049int, m, 1712061670int, 12054971171int);
    assert(mod_pow(2, 1054, 35385462869) == 12054971171);
    lemma_fundamental_div_mod_converse(12054971171int * 12054971171int, m, 4106837049int, 27218077660int);
    lemma_fundamental_div_mod_converse(27218077660int * 2, m, 1int, 19050692451int);
    assert(mod_pow(2, 2109, 35385462869) == 19050692451);
    lemma_fundamental_div_mod_converse(19050692451int * 19050692451int, m, 10256440171int, 23547876802int);
    assert(mod_pow(2, 4218, 35385462869) == 23547876802);
    lemma_fundamental_div_mod_converse(23547876802int * 23547876802int, m, 15670347564int, 11923146088int);
    assert(mod_pow(2, 8436, 35385462869) == 11923146088);
    lemma_fundamental_div_mod_converse(11923146088int * 11923146088int, m, 4017508917int, 27409800871int);
    lemma_fundamental_div_mod_converse(27409800871int * 2, m, 1int, 19434138873int);
    assert(mod_pow(2, 16873, 35385462869) == 19434138873);
    lemma_fundamental_div_mod_converse(19434138873int * 19434138873int, m, 10673472186int, 14042448495int);
    assert(mod_pow(2, 33746, 35385462869) == 14042448495);
    lemma_fundamental_div_mod_converse(14042448495int * 14042448495int, m, 5572637567int, 25254765302int);
    assert(mod_pow(2, 67492, 35385462869) == 25254765302);
    lemma_fundamental_div_mod_converse(25254765302int * 25254765302int, m, 18024440511int, 22613265145int);
    assert(mod_pow(2, 134984, 35385462869) == 22613265145);
    lemma_fundamental_div_mod_converse(22613265145int * 22613265145int, m, 14451125379int, 4203818674int);
    lemma_fundamental_div_mod_converse(4203818674int * 2, m, 0int, 8407637348int);
    assert(mod_pow(2, 269969, 35385462869) == 8407637348);
    lemma_fundamental_div_mod_converse(8407637348int * 8407637348int, m, 1997666839int, 19417372013int);
    lemma_fundamental_div_mod_converse(19417372013int * 2, m, 1int, 3449281157int);
    assert(mod_pow(2, 539939, 35385462869) == 3449281157);
    lemma_fundamental_div_mod_converse(3449281157int * 3449281157int, m, 336226787int, 13083586746int);
    assert(mod_pow(2, 1079878, 35385462869) == 13083586746);
    lemma_fundamental_div_mod_converse(13083586746int * 13083586746int, m, 4837586631int, 33285564177int);
    lemma_fundamental_div_mod_converse(33285564177int * 2, m, 1int, 31185665485int);
    assert(mod_pow(2, 2159757, 35385462869) == 31185665485);
    lemma_fundamental_div_mod_converse(31185665485int * 31185665485int, m, 27484329803int, 18913700418int);
    assert(mod_pow(2, 4319514, 35385462869) == 18913700418);
    lemma_fundamental_div_mod_converse(18913700418int * 18913700418int, m, 10109464014int, 8964678558int);
    lemma_fundamental_div_mod_converse(8964678558int * 2, m, 0int, 17929357116int);
    assert(mod_pow(2, 8639029, 35385462869) == 17929357116);
    lemma_fundamental_div_mod_converse(17929357116int * 17929357116int, m, 9084573735int, 12524691741int);
    assert(mod_pow(2, 17278058, 35385462869) == 12524691741);
    lemma_fundamental_div_mod_converse(12524691741int * 12524691741int, m, 4433117175int, 17184936006int);
    assert(mod_pow(2, 34556116, 35385462869) == 17184936006);
    lemma_fundamental_div_mod_converse(17184936006int * 17184936006int, m, 8345857354int, 20377643410int);
    assert(mod_pow(2, 69112232, 35385462869) == 20377643410);
    lemma_fundamental_div_mod_converse(20377643410int * 20377643410int, m, 11734998422int, 15661835382int);
    assert(mod_pow(2, 138224464, 35385462869) == 15661835382);
    lemma_fundamental_div_mod_converse(15661835382int * 15661835382int, m, 6932029925int, 14982731099int);
    assert(mod_pow(2, 276448928, 35385462869) == 14982731099);
    lemma_fundamental_div_mod_converse(14982731099int * 14982731099int, m, 6343911114int, 16258321735int);
    lemma_fundamental_div_mod_converse(16258321735int * 2, m, 0int, 32516643470int);
    assert(mod_pow(2, 552897857, 35385462869) == 32516643470);
    lemma_fundamental_div_mod_converse(32516643470int * 32516643470int, m, 29880408982int, 11998551542int);
    assert(mod_pow(2, 1105795714, 35385462869) == 11998551542);
    lemma_fundamental_div_mod_converse(11998551542int * 11998551542int, m, 4068485401int, 15876502295int);
    lemma_fundamental_div_mod_converse(15876502295int * 2, m, 0int, 31753004590int);
    assert(mod_pow(2, 2211591429, 35385462869) == 31753004590);
    lemma_fundamental_div_mod_converse(31753004590int * 31753004590int, m, 28493432577int, 28772584687int);
    assert(mod_pow(2, 4423182858, 35385462869) == 28772584687);
    lemma_fundamental_div_mod_converse(28772584687int * 28772584687int, m, 23395529193int, 11079853252int);
    lemma_fundamental_div_mod_converse(11079853252int * 2, m, 0int, 22159706504int);
    assert(mod_pow(2, 8846365717, 35385462869) == 22159706504);
    lemma_fundamental_div_mod_converse(22159706504int * 22159706504int, m, 13877240892int, 35385462868int);
    assert(mod_pow(2, 17692731434, 35385462869) == 35385462868);
}

pub proof fn lemma_pow_35385462869_by_7()
    ensures
        mod_pow(2, 5055066124, 35385462869) == 10975929881,
{
    let m = 35385462869int;
    lemma_fundamental_div_mod_converse(1, m, 0, 1);
    assert(mod_pow(2, 0, 35385462869) == 1);
    lemma_fundamental_div_mod_converse(1int * 1int, m, 0int, 1int);
    lemma_fundamental_div_mod_converse(1int * 2, m, 0int, 2int);
    assert(mod_pow(2, 1, 35385462869) == 2);
    lemma_fundamental_div_mod_converse(2int * 2int, m, 0int, 4int);
    assert(mod_pow(2, 2, 35385462869) == 4);
    lemma_fundamental_div_mod_converse(4int * 4int, m, 0int, 16int);
    assert(mod_pow(2, 4, 35385462869) == 16);
    lemma_fundamental_div_mod_converse(16int * 16int, m, 0int, 256int);
    lemma_fundamental_div_mod_converse(256int * 2, m, 0int, 512int);
    assert(mod_pow(2, 9, 35385462869) == 512);
    lemma_fundamental_div_mod_converse(512int * 512int, m, 0int, 262144int);
    assert(mod_pow(2, 18, 35385462869) == 262144);
    lemma_fundamental_div_mod_converse(262144int * 262144int, m, 1int, 33334013867int);
    lemma_fundamental_div_mod_converse(33334013867int * 2, m, 1int, 31282564865int);
    assert(mod_pow(2, 37, 35385462869) == 31282564865);
    lemma_fundamental_div_mod_converse(31282564865int * 31282564865int, m, 27655392502int, 25790459987int);
    lemma_fundamental_div_mod_converse(25790459987int * 2, m, 1int, 16195457105int);
    assert(mod_pow(2, 75, 35385462869) == 16195457105);
    lemma_fundamental_div_mod_converse(16195457105int * 16195457105int, m, 7412445947int, 13856939082int);
    assert(mod_pow(2, 150, 35385462869) == 13856939082);
    lemma_fundamental_div_mod_converse(13856939082int * 13856939082int, m, 5426374142int, 7216269326int);
    lemma_fundamental_div_mod_converse(7216269326int * 2, m, 0int, 14432538652int);
    assert(mod_pow(2, 301, 35385462869) == 14432538652);
    lemma_fundamental_div_mod_converse(14432538652int * 14432538652int, m, 5886546481int, 11405863115int);
    assert(mod_pow(2, 602, 35385462869) == 11405863115);
    lemma_fundamental_div_mod_converse(11405863115int * 11405863115int, m, 3676473411int, 24311227066int);
    lemma_fundamental_div_mod_converse(24311227066int * 2, m, 1int, 13236991263int);
    assert(mod_pow(2, 1205, 35385462869) == 13236991263);
    lemma_fundamental_div_mod_converse(13236991263int * 13236991263int, m, 4951692686int, 17586459035int);
    assert(mod_pow(2, 2410, 35385462869) == 17586459035);
    lemma_fundamental_div_mod_converse(17586459035int * 17586459035int, m, 8740412483int, 12792537498int);
    assert(mod_pow(2, 4820, 35385462869) == 12792537498);
    lemma_fundamental_div_mod_converse(12792537498int * 12792537498int, m, 4624752719int, 21254809193int);
    lemma_fundamental_div_mod_converse(21254809193int * 2, m, 1int, 7124155517int);
    assert(mod_pow(2, 9641, 35385462869) == 7124155517);
    lemma_fundamental_div_mod_converse(7124155517int * 7124155517int, m, 1434306286int, 4375242755int);
    lemma_fundamental_div_mod_converse(4375242755int * 2, m, 0int, 8750485510int);
    assert(mod_pow(2, 19283, 35385462869) == 8750485510);
    lemma_fundamental_div_mod_converse(8750485510int * 8750485510int, m, 2163911122int, 1372831082int);
    lemma_fundamental_div_mod_converse(1372831082int * 2, m, 0int, 2745662164int);
    assert(mod_pow(2, 38567, 35385462869) == 2745662164);
    lemma_fundamental_div_mod_converse(2745662164int * 2745662164int, m, 213044004int, 25816075420int);
    assert(mod_pow(2, 77134, 35385462869) == 25816075420);
    lemma_fundamental_div_mod_converse(25816075420int * 25816075420int, m, 18834563576int, 18760316856int);
    assert(mod_pow(2, 154268, 35385462869) == 18760316856);
    lemma_fundamental_div_mod_converse(18760316856int * 18760316856int, m, 9946160372int, 4992497468int);
    assert(mod_pow(2, 308536, 35385462869) == 4992497468);
    lemma_fundamental_div_mod_converse(4992497468int * 4992497468int, m, 704386178int, 20930586342int);
    lemma_fundamental_div_mod_converse(20930586342int * 2, m, 1int, 6475709815int);
    assert(mod_pow(2, 617073, 35385462869) == 6475709815);
    lemma_fundamental_div_mod_converse(6475709815int * 6475709815int, m, 1185086027int, 3108102762int);
    lemma_fundamental_div_mod_converse(3108102762int * 2, m, 0int, 6216205524int);
    assert(mod_pow(2, 1234147, 35385462869) == 6216205524);
    lemma_fundamental_div_mod_converse(6216205524int * 6216205524int, m, 1092008072int, 32203836008int);
    assert(mod_pow(2, 2468294, 35385462869) == 32203836008);
    lemma_fundamental_div_mod_converse(32203836008int * 32203836008int, m, 29308279998int, 6672981802int);
    assert(mod_pow(2, 4936588, 35385462869) == 6672981802);
    lemma_fundamental_div_mod_converse(6672981802int * 6672981802int, m, 1258389251int, 13813946085int);
    assert(mod_pow(2, 9873176, 35385462869) == 13813946085);
    lemma_fundamental_div_mod_converse(13813946085int * 13813946085int, m, 5392754282int, 31935072167int);
    assert(mod_pow(2, 19746352, 35385462869) == 31935072167);
    lemma_fundamental_div_mod_converse(31935072167int * 31935072167int, m, 28821124598int, 6146524227int);
    assert(mod_pow(2, 39492704, 35385462869) == 6146524227);
    lemma_fundamental_div_mod_converse(6146524227int * 6146524227int, m, 1067663300int, 14353939829int);
    assert(mod_pow(2, 78985408, 35385462869) == 14353939829);
    lemma_fundamental_div_mod_converse(14353939829int * 14353939829int, m, 5822605440int, 16595141881int);
    assert(mod_pow(2, 157970816, 35385462869) == 16595141881);
    lemma_fundamental_div_mod_converse(16595141881int * 16595141881int, m, 7782821297int, 29464297068int);
    assert(mod_pow(2, 315941632, 35385462869) == 29464297068);
    lemma_fundamental_div_mod_converse(29464297068int * 29464297068int, m, 24533939401int, 6971795155int);
    lemma_fundamental_div_mod_converse(6971795155int * 2, m, 0int, 13943590310int);
    assert(mod_pow(2, 631883265, 35385462869) == 13943590310);
    lemma_fundamental_div_mod_converse(13943590310int * 13943590310int, m, 5494451533int, 26634267923int);
    lemma_fundamental_div_mod_converse(26634267923int * 2, m, 1int, 17883072977int);
    assert(mod_pow(2, 1263766531, 35385462869) == 17883072977);
    lemma_fundamental_div_mod_converse(17883072977int * 17883072977int, m, 9037731123int, 27785470642int);
    assert(mod_pow(2, 2527533062, 35385462869) == 27785470642);
    lemma_fundamental_div_mod_converse(27785470642int * 27785470642int, m, 21817783807int, 10975929881int);
    assert(mod_pow(2, 5055066124, 35385462869) == 10975929881);
}

pub proof fn lemma_pow_35385462869_by_1263766531()
    ensures
        mod_pow(2, 28, 35385462869) == 268435456,
{
    let m = 35385462869int;
    lemma_fundamental_div_mod_converse(1, m, 0, 1);
    assert(mod_pow(2, 0, 35385462869) == 1);
    lemma_fundamental_div_mod_converse(1int * 1int, m, 0int, 1int);
    lemma_fundamental_div_mod_converse(1int * 2, m, 0int, 2int);
    assert(mod_pow(2, 1, 35385462869) == 2);
    lemma_fundamental_div_mod_converse(2int * 2int, m, 0int, 4int);
    lemma_fundamental_div_mod_converse(4int * 2, m, 0int, 8int);
    assert(mod_pow(2, 3, 35385462869) == 8);
    lemma_fundamental_div_mod_converse(8int * 8int, m, 0int, 64int);
    lemma_fundamental_div_mod_converse(64int * 2, m, 0int, 128int);
    assert(mod_pow(2, 7, 35385462869) == 128);
    lemma_fundamental_div_mod_converse(128int * 128int, m, 0int, 16384int);
    assert(mod_pow(2, 14, 35385462869) == 16384);
    lemma_fundamental_div_mod_converse(16384int * 16384int, m, 0int, 268435456int);
    assert(mod_pow(2, 28, 35385462869) == 268435456);
}

/// A Lucas–Pratt witness for 35385462869: generator 2, and n - 1 = 2^2 * 7 * 1263766531.
pub proof fn lemma_witness_35385462869()
    ensures
        pratt_witness(35385462869, 2, seq![2nat, 2nat, 7nat, 1263766531nat]),
{
    lemma_prime_7();
    lemma_prime_1263766531();
    lemma_pow_35385462869_full();
    lemma_pow_35385462869_by_2();
    lemma_pow_35385462869_by_7();
    lemma_pow_35385462869_by_1263766531();
    let fs = seq![2nat, 2nat, 7nat, 1263766531nat];
    assert(product(fs) == 35385462868nat) by {
        assert(product(Seq::<nat>::empty()) == 1);
        assert(seq![1263766531nat].len() == 1 && seq![1263766531nat][0] == 1263766531nat);
        assert(seq![1263766531nat].drop_first() =~= Seq::<nat>::empty());
        assert(product(seq![1263766531nat].drop_first()) == 1nat);
        assert(product(seq![1263766531nat]) == seq![1263766531nat][0] * product(seq![1263766531nat].drop_first()));
        assert(product(seq![1263766531nat]) == 1263766531nat);
        assert(seq![7nat, 1263766531nat].len() == 2 && seq![7nat, 1263766531nat][0] == 7nat);
        assert(seq![7nat, 1263766531nat].drop_first() =~= seq![1263766531nat]);
        assert(product(seq![7nat, 1263766531nat].drop_first()) == 1263766531nat);
        assert(product(seq![7nat, 1263766531nat]) == seq![7nat, 1263766531nat][0] * product(seq![7nat, 1263766531nat].drop_first()));
        assert(product(seq![7nat, 1263766531nat]) == 8846365717nat);
        assert(seq![2nat, 7nat, 1263766531nat].len() == 3 && seq![2nat, 7nat, 1263766531nat][0] == 2nat);
        assert(seq![2nat, 7nat, 1263766531nat].drop_first() =~= seq![7nat, 1263766531nat]);
        assert(product(seq![2nat, 7nat, 1263766531nat].drop_first()) == 8846365717nat);
        assert(product(seq![2nat, 7nat, 1263766531nat]) == seq![2nat, 7nat, 1263766531nat][0] * product(seq![2nat, 7nat, 1263766531nat].drop_first()));
        assert(product(seq![2nat, 7nat, 1263766531nat]) == 17692731434nat);
        assert(seq![2nat, 2nat, 7nat, 1263766531nat].len() == 4 && seq![2nat, 2nat, 7nat, 1263766531nat][0] == 2nat);
        assert(seq![2nat, 2nat, 7nat, 1263766531nat].drop_first() =~= seq![2nat, 7nat, 1263766531nat]);
        assert(product(seq![2nat, 2nat, 7nat, 1263766531nat].drop_first()) == 17692731434nat);
        assert(product(seq![2nat, 2nat, 7nat, 1263766531nat]) == seq![2nat, 2nat, 7nat, 1263766531nat][0] * product(seq![2nat, 2nat, 7nat, 1263766531nat].drop_first()));
        assert(product(seq![2nat, 2nat, 7nat, 1263766531nat]) == 35385462868nat);
    }
    assert forall|i: int| 0 <= i < fs.len() implies mod_pow(2, ((35385462868nat) / fs[i]) as nat, 35385462869) != 1 && is_prime(#[trigger] fs[i]) by {
        if i == 0 {
            assert(fs[i] == 2);
            lemma_fundamental_div_mod_converse(35385462868int, 2int, 17692731434int, 0int);
        } else if i == 1 {
            assert(fs[i] == 2);
            lemma_fundamental_div_mod_converse(35385462868int, 2int, 17692731434int, 0int);
        } else if i == 2 {
            assert(fs[i] == 7);
            lemma_fundamental_div_mod_converse(35385462868int, 7int, 5055066124int, 0int);
        } else if i == 3 {
            assert(fs[i] == 1263766531);
            lemma_fundamental_div_mod_converse(35385462868int, 1263766531int, 28int, 0int);
        }
    }
}

/// 35385462869 is prime.
pub proof fn lemma_prime_35385462869()
    ensures
        is_prime(35385462869),
{
    lemma_witness_35385462869();
    lemma_pratt_prime(35385462869, 2, seq![2nat, 2nat, 7nat, 1263766531nat]);
}

#[verifier::rlimit(100)]
pub proof fn lemma_pow_2480874801745591_full()
    ensures
        mod_pow(6, 2480874801745590, 2480874801745591) == 1,
{
    let m = 2480874801745591int;
    lemma_fundamental_div_mod_converse(1, m, 0, 1);
    assert(mod_pow(6, 0, 2480874801745591) == 1);
    lemma_fundamental_div_mod_converse(1int * 1int, m, 0int, 1int);
    lemma_fundamental_div_mod_converse(1int * 6, m, 0int, 6int);
    assert(mod_pow(6, 1, 2480874801745591) == 6);
    lemma_fundamental_div_mod_converse(6int * 6int, m, 0int, 36int);
    assert(mod_pow(6, 2, 2480874801745591) == 36);
    lemma_fundamental_div_mod_converse(36int * 36int, m, 0int, 1296int);
    assert(mod_pow(6, 4, 2480874801745591) == 1296);
    lemma_fundamental_div_mod_converse(1296int * 1296int, m, 0int, 1679616int);
    assert(mod_pow(6, 8, 2480874801745591) == 1679616);
    lemma_fundamental_div_mod_converse(1679616int * 1679616int, m, 0int, 2821109907456int);
    lemma_fundamental_div_mod_converse(2821109907456int * 6, m, 0int, 16926659444736int);
    assert(mod_pow(6, 17, 2480874801745591) == 16926659444736);
    lemma_fundamental_div_mod_converse(16926659444736int * 16926659444736int, m, 115488213978int, 1447290512038698int);
    lemma_fundamental_div_mod_converse(1447290512038698int * 6, m, 3int, 1241118666995415int);
    assert(mod_pow(6, 35, 2480874801745591) == 1241118666995415);
    lemma_fundamental_div_mod_converse(1241118666995415int * 1241118666995415int, m, 620900153639610int, 1379903710562715int);
    assert(mod_pow(6, 70, 2480874801745591) == 1379903710562715);
    lemma_fundamental_div_mod_converse(1379903710562715int * 1379903710562715int, m, 767525329809051int, 386860437027084int);
    lemma_fundamental_div_mod_converse(386860437027084int * 6, m, 0int, 2321162622162504int);
    assert(mod_pow(6, 141, 2480874801745591) == 2321162622162504);
    lemma_fundamental_div_mod_converse(2321162622162504int * 2321162622162504int, m, 2171732291663148int, 1000870417369548int);
    assert(mod_pow(6, 282, 2480874801745591) == 1000870417369548);
    lemma_fundamental_div_mod_converse(1000870417369548int * 1000870417369548int, m, 403785629029183int, 81608517142151int);
    assert(mod_pow(6, 564, 2480874801745591) == 81608517142151);
    lemma_fundamental_div_mod_converse(81608517142151int * 81608517142151int, m, 2684516794420int, 1326648652504581int);
    assert(mod_pow(6, 1128, 2480874801745591) == 1326648652504581);
    lemma_fundamental_div_mod_converse(1326648652504581int * 1326648652504581int, m, 709425822679102int, 541538389646279int);
    assert(mod_pow(6, 2256, 2480874801745591) == 541538389646279);
    lemma_fundamental_div_mod_converse(541538389646279int * 541538389646279int, m, 118209845677959int, 1657166704417072int);
    assert(mod_pow(6, 4512, 2480874801745591) == 1657166704417072);
    lemma_fundamental_div_mod_converse(1657166704417072int * 1657166704417072int, m, 1106948840907352int, 633637419568152int);
    lemma_fundamental_div_mod_converse(633637419568152int * 6, m, 1int, 1320949715663321int);
    assert(mod_pow(6, 9025, 2480874801745591) == 1320949715663321);
    lemma_fundamental_div_mod_converse(1320949715663321int * 1320949715663321int, m, 703343897113734int, 2406037164702247int);
    assert(mod_pow(6, 18050, 2480874801745591) == 2406037164702247);
    lemma_fundamental_div_mod_converse(2406037164702247int * 2406037164702247int, m, 2333457066779494int, 2181100283138055int);
    lemma_fundamental_div_mod_converse(2181100283138055int * 6, m, 5int, 682227690100375int);
    assert(mod_pow(6, 36101, 2480874801745591) == 682227690100375);
    lemma_fundamental_div_mod_converse(682227690100375int * 682227690100375int, m, 187609072740069int, 467522965354846int);
    assert(mod_pow(6, 72202, 2480874801745591) == 467522965354846);
    lemma_fundamental_div_mod_converse(467522965354846int * 467522965354846int, m, 88105100257535int, 971521044905531int);
    lemma_fundamental_div_mod_converse(971521044905531int * 6, m, 2int, 867376665942004int);
    assert(mod_pow(6, 144405, 2480874801745591) == 867376665942004);
    lemma_fundamental_div_mod_converse(867376665942004int * 867376665942004int, m, 303256851208817int, 738490641460169int);
    lemma_fundamental_div_mod_converse(738490641460169int * 6, m, 1int, 1950069047015423int);
    assert(mod_pow(6, 288811, 2480874801745591) == 1950069047015423);
    lemma_fundamental_div_mod_converse(1950069047015423int * 1950069047015423int, m, 1532834017037836int, 795256106687853int);
    lemma_fundamental_div_mod_converse(795256106687853int * 6, m, 1int, 2290661838381527int);
    assert(mod_pow(6, 577623, 2480874801745591) == 2290661838381527);
    lemma_fundamental_div_mod_converse(2290661838381527int * 2290661838381527int, m, 2115032832017744int, 403552929085025int);
    lemma_fundamental_div_mod_converse(403552929085025int * 6, m, 0int, 2421317574510150int);
    assert(mod_pow(6, 1155247, 2480874801745591) == 2421317574510150);
    lemma_fundamental_div_mod_converse(2421317574510150int * 2421317574510150int, m, 2363190110402408int, 542486603239372int);
    assert(mod_pow(6, 2310494, 2480874801745591) == 542486603239372);
    lemma_fundamental_div_mod_converse(542486603239372int * 542486603239372int, m, 118624170186710int, 2397555541658774int);
    lemma_fundamental_div_mod_converse(2397555541658774int * 6, m, 5int, 1980959241224689int);
    assert(mod_pow(6, 4620989, 2480874801745591) == 1980959241224689);
    lemma_fundamental_div_mod_converse(1980959241224689int * 1980959241224689int, m, 1581780552824493int, 179390723586358int);
    assert(mod_pow(6, 9241978, 2480874801745591) == 179390723586358);
    lemma_fundamental_div_mod_converse(179390723586358int * 179390723586358int, m, 12971646810308int, 413091831352136int);
    lemma_fundamental_div_mod_converse(413091831352136int * 6, m, 0int, 2478550988112816int);
    assert(mod_pow(6, 18483957, 2480874801745591) == 2478550988112816);
    lemma_fundamental_div_mod_converse(2478550988112816int * 2478550988112816int, m, 2476229351175856int, 1372359929798960int);
    lemma_fundamental_div_mod_converse(1372359929798960int * 6, m, 3int, 791535173556987int);
    assert(mod_pow(6, 36967915, 2480874801745591) == 791535173556987);
    lemma_fundamental_div_mod_converse(791535173556987int * 791535173556987int, m, 252543147496621int, 2362685162370158int);
    assert(mod_pow(6, 73935830, 2480874801745591) == 2362685162370158);
    lemma_fundamental_div_mod_converse(2362685162370158int * 2362685162370158int, m, 2250126113803203int, 1497423962016991int);
    lemma_fundamental_div_mod_converse(1497423962016991int * 6, m, 3int, 1541919366865173int);
    assert(mod_pow(6, 147871661, 2480874801745591) == 1541919366865173);
    lemma_fundamental_div_mod_converse(1541919366865173int * 1541919366865173int, m, 958337491372410int, 1279858903775619int);
    assert(mod_pow(6, 295743322, 2480874801745591) == 1279858903775619);
    lemma_fundamental_div_mod_converse(1279858903775619int * 1279858903775619int, m, 660266617413008int, 970218508785433int);
    lemma_fundamental_div_mod_converse(970218508785433int * 6, m, 2int, 859561449221416int);
    assert(mod_pow(6, 591486645, 2480874801745591) == 859561449221416);
    lemma_fundamental_div_mod_converse(859561449221416int * 859561449221416int, m, 297816675177544int, 373301548836552int);
    assert(mod_pow(6, 1182973290, 2480874801745591) == 373301548836552);
    lemma_fundamental_div_mod_converse(373301548836552int * 373301548836552int, m, 56171333702819int, 2097233973727675int);
    assert(mod_pow(6, 2365946580, 2480874801745591) == 2097233973727675);
    lemma_fundamental_div_mod_converse(2097233973727675int * 2097233973727675int, m, 1772919107994801int, 2221576508233234int);
    lemma_fundamental_div_mod_converse(2221576508233234int * 6, m, 5int, 925085040671449int);
    assert(mod_pow(6, 4731893161, 2480874801745591) == 925085040671449);
    lemma_fundamental_div_mod_converse(925085040671449int * 925085040671449int, m, 344951841935736int, 957927520419625int);
    assert(mod_pow(6, 9463786322, 2480874801745591) == 957927520419625);
    lemma_fundamental_div_mod_converse(957927520419625int * 957927520419625int, m, 369879662501159int, 2127497824500656int);
    lemma_fundamental_div_mod_converse(2127497824500656int * 6, m, 5int, 360612938275981int);
    assert(mod_pow(6, 18927572645, 2480874801745591) == 360612938275981);
    lemma_fundamental_div_mod_converse(360612938275981int * 360612938275981int, m, 52417675878096int, 420926000037625int);
    assert(mod_pow(6, 37855145290, 2480874801745591) == 420926000037625);
    lemma_fundamental_div_mod_converse(420926000037625int * 420926000037625int, m, 71417831074348int, 1478708113440957int);
    assert(mod_pow(6, 75710290580, 2480874801745591) == 1478708113440957);
    lemma_fundamental_div_mod_converse(1478708113440957int * 1478708113440957int, m, 881373652236540int, 515789490980709int);
    lemma_fundamental_div_mod_converse(515789490980709int * 6, m, 1int, 613862144138663int);
    assert(mod_pow(6, 151420581161, 2480874801745591) == 613862144138663);
    lemma_fundamental_div_mod_converse(613862144138663int * 613862144138663int, m, 151892683879643int, 1615323621523556int);
    assert(mod_pow(6, 302841162322, 2480874801745591) == 1615323621523556);
    lemma_fundamental_div_mod_converse(1615323621523556int * 1615323621523556int, m, 1051754163658739int, 2401534241015387int);
    assert(mod_pow(6, 605682324644, 2480874801745591) == 2401534241015387);
    lemma_fundamental_div_mod_converse(2401534241015387int * 2401534241015387int, m, 2324731061281819int, 822477579049740int);
    lemma_fundamental_div_mod_converse(822477579049740int * 6, m, 1int, 2453990672552849int);
    assert(mod_pow(6, 1211364649289, 2480874801745591) == 2453990672552849);
    lemma_fundamental_div_mod_converse(2453990672552849int * 2453990672552849int, m, 2427397874628393int, 720787846851538int);
    lemma_fundamental_div_mod_converse(720787846851538int * 6, m, 1int, 1843852279363637int);
    assert(mod_pow(6, 2422729298579, 2480874801745591) == 1843852279363637);
    lemma_fundamental_div_mod_converse(1843852279363637int * 1843852279363637int, m, 1370400161153767int, 2000409512576472int);
    lemma_fundamental_div_mod_converse(2000409512576472int * 6, m, 4int, 2078957868476468int);
    assert(mod_pow(6, 4845458597159, 2480874801745591) == 2078957868476468);
    lemma_fundamental_div_mod_converse(2078957868476468int * 2078957868476468int, m, 1742153943382846int, 1581263064223038int);
    assert(mod_pow(6, 9690917194318, 2480874801745591) == 1581263064223038);
    lemma_fundamental_div_mod_converse(1581263064223038int * 1581263064223038int, m, 1007867416975942int, 592258558377722int);
    lemma_fundamental_div_mod_converse(592258558377722int * 6, m, 1int, 1072676548520741int);
    assert(mod_pow(6, 19381834388637, 2480874801745591) == 1072676548520741);
    lemma_fundamental_div_mod_converse(1072676548520741int * 1072676548520741int, m, 463802114051366int, 1009789469161775int);
    assert(mod_pow(6, 38763668777274, 2480874801745591) == 1009789469161775);
    lemma_fundamental_div_mod_converse(1009789469161775int * 1009789469161775int, m, 411014200036437int, 1020177717051358int);
    lemma_fundamental_div_mod_converse(1020177717051358int * 6, m, 2int, 1159316698816966int);
    assert(mod_pow(6, 77527337554549, 2480874801745591) == 1159316698816966);
    lemma_fundamental_div_mod_converse(1159316698816966int * 1159316698816966int, m, 541750517684404int, 791129532982392int);
    lemma_fundamental_div_mod_converse(791129532982392int * 6, m, 1int, 2265902396148761int);
    assert(mod_pow(6, 155054675109099, 2480874801745591) == 2265902396148761);
    lemma_fundamental_div_mod_converse(2265902396148761int * 2265902396148761int, m, 2069557748444256int, 1333871484559825int);
    assert(mod_pow(6, 310109350218198, 2480874801745591) == 1333871484559825);
    lemma_fundamental_div_mod_converse(1333871484559825int * 1333871484559825int, m, 717171675116351int, 777981177772184int);
    lemma_fundamental_div_mod_converse(777981177772184int * 6, m, 1int, 2187012264887513int);
    assert(mod_pow(6, 620218700436397, 2480874801745591) == 2187012264887513);
    lemma_fundamental_div_mod_converse(2187012264887513int * 2187012264887513int, m, 1927958090993944int, 413479133624265int);
    lemma_fundamental_div_mod_converse(413479133624265int * 6, m, 0int, 2480874801745590int);
    assert(mod_pow(6, 1240437400872795, 2480874801745591) == 2480874801745590);
    lemma_fundamental_div_mod_converse(2480874801745590int * 2480874801745590int, m, 2480874801745589int, 1int);
    assert(mod_pow(6, 2480874801745590, 2480874801745591) == 1);
}

#[verifier::rlimit(100)]
pub proof fn lemma_pow_2480874801745591_by_2()
    ensures
        mod_pow(6, 1240437400872795, 2480874801745591) == 2480874801745590,
{
    let m = 2480874801745591int;
    lemma_fundamental_div_mod_converse(1, m, 0, 1);
    assert(mod_pow(6, 0, 2480874801745591) == 1);
    lemma_fundamental_div_mod_converse(1int * 1int, m, 0int, 1int);
    lemma_fundamental_div_mod_converse(1int * 6, m, 0int, 6int);
    assert(mod_pow(6, 1, 2480874801745591) == 6);
    lemma_fundamental_div_mod_converse(6int * 6int, m, 0int, 36int);
    assert(mod_pow(6, 2, 2480874801745591) == 36);
    lemma_fundamental_div_mod_converse(36int * 36int, m, 0int, 1296int);
    assert(mod_pow(6, 4, 2480874801745591) == 1296);
    lemma_fundamental_div_mod_converse(1296int * 1296int, m, 0int, 1679616int);
    assert(mod_pow(6, 8, 2480874801745591) == 1679616);
    lemma_fundamental_div_mod_converse(1679616int * 1679616int, m, 0int, 2821109907456int);
    lemma_fundamental_div_mod_converse(2821109907456int * 6, m, 0int, 16926659444736int);
    assert(mod_pow(6, 17, 2480874801745591) == 16926659444736);
    lemma_fundamental_div_mod_converse(16926659444736int * 16926659444736int, m, 115488213978int, 1447290512038698int);
    lemma_fundamental_div_mod_converse(1447290512038698int * 6, m, 3int, 1241118666995415int);
    assert(mod_pow(6, 35, 2480874801745591) == 1241118666995415);
    lemma_fundamental_div_mod_converse(1241118666995415int * 1241118666995415int, m, 620900153639610int, 1379903710562715int);
    assert(mod_pow(6, 70, 2480874801745591) == 1379903710562715);
    lemma_fundamental_div_mod_converse(1379903710562715int * 1379903710562715int, m, 767525329809051int, 386860437027084int);
    lemma_fundamental_div_mod_converse(386860437027084int * 6, m, 0int, 2321162622162504int);
    assert(mod_pow(6, 141, 2480874801745591) == 2321162622162504);
    lemma_fundamental_div_mod_converse(2321162622162504int * 2321162622162504int, m, 2171732291663148int, 1000870417369548int);
    assert(mod_pow(6, 282, 2480874801745591) == 1000870417369548);
    lemma_fundamental_div_mod_converse(1000870417369548int * 1000870417369548int, m, 403785629029183int, 81608517142151int);
    assert(mod_pow(6, 564, 2480874801745591) == 81608517142151);
    lemma_fundamental_div_mod_converse(81608517142151int * 81608517142151int, m, 2684516794420int, 1326648652504581int);
    assert(mod_pow(6, 1128, 2480874801745591) == 1326648652504581);
    lemma_fundamental_div_mod_converse(1326648652504581int * 1326648652504581int, m, 709425822679102int, 541538389646279int);
    assert(mod_pow(6, 2256, 2480874801745591) == 541538389646279);
    lemma_fundamental_div_mod_converse(541538389646279int * 541538389646279int, m, 118209845677959int, 1657166704417072int);
    assert(mod_pow(6, 4512, 2480874801745591) == 1657166704417072);
    lemma_fundamental_div_mod_converse(1657166704417072int * 1657166704417072int, m, 1106948840907352int, 633637419568152int);
    lemma_fundamental_div_mod_converse(633637419568152int * 6, m, 1int, 1320949715663321int);
    assert(mod_pow(6, 9025, 2480874801745591) == 1320949715663321);
    lemma_fundamental_div_mod_converse(1320949715663321int * 1320949715663321int, m, 703343897113734int, 2406037164702247int);
    assert(mod_pow(6, 18050, 2480874801745591) == 2406037164702247);
    lemma_fundamental_div_mod_converse(2406037164702247int * 2406037164702247int, m, 2333457066779494int, 2181100283138055int);
    lemma_fundamental_div_mod_converse(2181100283138055int * 6, m, 5int, 682227690100375int);
    assert(mod_pow(6, 36101, 2480874801745591) == 682227690100375);
    lemma_fundamental_div_mod_converse(682227690100375int * 682227690100375int, m, 187609072740069int, 467522965354846int);
    assert(mod_pow(6, 72202, 2480874801745591) == 467522965354846);
    lemma_fundamental_div_mod_converse(467522965354846int * 467522965354846int, m, 88105100257535int, 971521044905531int);
    lemma_fundamental_div_mod_converse(971521044905531int * 6, m, 2int, 867376665942004int);
    assert(mod_pow(6, 144405, 2480874801745591) == 867376665942004);
    lemma_fundamental_div_mod_converse(867376665942004int * 867376665942004int, m, 303256851208817int, 738490641460169int);
    lemma_fundamental_div_mod_converse(738490641460169int * 6, m, 1int, 1950069047015423int);
    assert(mod_pow(6, 288811, 2480874801745591) == 1950069047015423);
    lemma_fundamental_div_mod_converse(1950069047015423int * 1950069047015423int, m, 1532834017037836int, 795256106687853int);
    lemma_fundamental_div_mod_converse(795256106687853int * 6, m, 1int, 2290661838381527int);
    assert(mod_pow(6, 577623, 2480874801745591) == 2290661838381527);
    lemma_fundamental_div_mod_converse(2290661838381527int * 2290661838381527int, m, 2115032832017744int, 403552929085025int);
    lemma_fundamental_div_mod_converse(403552929085025int * 6, m, 0int, 2421317574510150int);
    assert(mod_pow(6, 1155247, 2480874801745591) == 2421317574510150);
    lemma_fundamental_div_mod_converse(2421317574510150int * 2421317574510150int, m, 2363190110402408int, 542486603239372int);
    assert(mod_pow(6, 2310494, 2480874801745591) == 542486603239372);
    lemma_fundamental_div_mod_converse(542486603239372int * 542486603239372int, m, 118624170186710int, 2397555541658774int);
    lemma_fundamental_div_mod_converse(2397555541658774int * 6, m, 5int, 1980959241224689int);
    assert(mod_pow(6, 4620989, 2480874801745591) == 1980959241224689);
    lemma_fundamental_div_mod_converse(1980959241224689int * 1980959241224689int, m, 1581780552824493int, 179390723586358int);
    assert(mod_pow(6, 9241978, 2480874801745591) == 179390723586358);
    lemma_fundamental_div_mod_converse(179390723586358int * 179390723586358int, m, 12971646810308int, 413091831352136int);
    lemma_fundamental_div_mod_converse(413091831352136int * 6, m, 0int, 2478550988112816int);
    assert(mod_pow(6, 18483957, 2480874801745591) == 2478550988112816);
    lemma_fundamental_div_mod_converse(2478550988112816int * 2478550988112816int, m, 2476229351175856int, 1372359929798960int);
    lemma_fundamental_div_mod_converse(1372359929798960int * 6, m, 3int, 791535173556987int);
    assert(mod_pow(6, 36967915, 2480874801745591) == 791535173556987);
    lemma_fundamental_div_mod_converse(791535173556987int * 791535173556987int, m, 252543147496621int, 2362685162370158int);
    assert(mod_pow(6, 73935830, 2480874801745591) == 2362685162370158);
    lemma_fundamental_div_mod_converse(2362685162370158int * 2362685162370158int, m, 2250126113803203int, 1497423962016991int);
    lemma_fundamental_div_mod_converse(1497423962016991int * 6, m, 3int, 1541919366865173int);
    assert(mod_pow(6, 147871661, 2480874801745591) == 1541919366865173);
    lemma_fundamental_div_mod_converse(1541919366865173int * 1541919366865173int, m, 958337491372410int, 1279858903775619int);
    assert(mod_pow(6, 295743322, 2480874801745591) == 1279858903775619);
    lemma_fundamental_div_mod_converse(1279858903775619int * 1279858903775619int, m, 660266617413008int, 970218508785433int);
    lemma_fundamental_div_mod_converse(970218508785433int * 6, m, 2int, 859561449221416int);
    assert(mod_pow(6, 591486645, 2480874801745591) == 859561449221416);
    lemma_fundamental_div_mod_converse(859561449221416int * 859561449221416int, m, 297816675177544int, 373301548836552int);
    assert(mod_pow(6, 1182973290, 2480874801745591) == 373301548836552);
    lemma_fundamental_div_mod_converse(373301548836552int * 373301548836552int, m, 56171333702819int, 2097233973727675int);
    assert(mod_pow(6, 2365946580, 2480874801745591) == 2097233973727675);
    lemma_fundamental_div_mod_converse(2097233973727675int * 2097233973727675int, m, 1772919107994801int, 2221576508233234int);
    lemma_fundamental_div_mod_converse(2221576508233234int * 6, m, 5int, 925085040671449int);
    assert(mod_pow(6, 4731893161, 2480874801745591) == 925085040671449);
    lemma_fundamental_div_mod_converse(925085040671449int * 925085040671449int, m, 344951841935736int, 957927520419625int);
    assert(mod_pow(6, 9463786322, 2480874801745591) == 957927520419625);
    lemma_fundamental_div_mod_converse(957927520419625int * 957927520419625int, m, 369879662501159int, 2127497824500656int);
    lemma_fundamental_div_mod_converse(2127497824500656int * 6, m, 5int, 360612938275981int);
    assert(mod_pow(6, 18927572645, 2480874801745591) == 360612938275981);
    lemma_fundamental_div_mod_converse(360612938275981int * 360612938275981int, m, 52417675878096int, 420926000037625int);
    assert(mod_pow(6, 37855145290, 2480874801745591) == 420926000037625);
    lemma_fundamental_div_mod_converse(420926000037625int * 420926000037625int, m, 71417831074348int, 1478708113440957int);
    assert(mod_pow(6, 75710290580, 2480874801745591) == 1478708113440957);
    lemma_fundamental_div_mod_converse(1478708113440957int * 1478708113440957int, m, 881373652236540int, 515789490980709int);
    lemma_fundamental_div_mod_converse(515789490980709int * 6, m, 1int, 613862144138663int);
    assert(mod_pow(6, 151420581161, 2480874801745591) == 613862144138663);
    lemma_fundamental_div_mod_converse(613862144138663int * 613862144138663int, m, 151892683879643int, 1615323621523556int);
    assert(mod_pow(6, 302841162322, 2480874801745591) == 1615323621523556);
    lemma_fundamental_div_mod_converse(1615323621523556int * 1615323621523556int, m, 1051754163658739int, 2401534241015387int);
    assert(mod_pow(6, 605682324644, 2480874801745591) == 2401534241015387);
    lemma_fundamental_div_mod_converse(2401534241015387int * 2401534241015387int, m, 2324731061281819int, 822477579049740int);
    lemma_fundamental_div_mod_converse(822477579049740int * 6, m, 1int, 2453990672552849int);
    assert(mod_pow(6, 1211364649289, 2480874801745591) == 2453990672552849);
    lemma_fundamental_div_mod_converse(2453990672552849int * 2453990672552849int, m, 2427397874628393int, 720787846851538int);
    lemma_fundamental_div_mod_converse(720787846851538int * 6, m, 1int, 1843852279363637int);
    assert(mod_pow(6, 2422729298579, 2480874801745591) == 1843852279363637);
    lemma_fundamental_div_mod_converse(1843852279363637int * 1843852279363637int, m, 1370400161153767int, 2000409512576472int);
    lemma_fundamental_div_mod_converse(2000409512576472int * 6, m, 4int, 2078957868476468int);
    assert(mod_pow(6, 4845458597159, 2480874801745591) == 2078957868476468);
    lemma_fundamental_div_mod_converse(2078957868476468int * 2078957868476468int, m, 1742153943382846int, 1581263064223038int);
    assert(mod_pow(6, 9690917194318, 2480874801745591) == 1581263064223038);
    lemma_fundamental_div_mod_converse(1581263064223038int * 1581263064223038int, m, 1007867416975942int, 592258558377722int);
    lemma_fundamental_div_mod_converse(592258558377722int * 6, m, 1int, 1072676548520741int);
    assert(mod_pow(6, 19381834388637, 2480874801745591) == 1072676548520741);
    lemma_fundamental_div_mod_converse(1072676548520741int * 1072676548520741int, m, 463802114051366int, 1009789469161775int);
    assert(mod_pow(6, 38763668777274, 2480874801745591) == 1009789469161775);
    lemma_fundamental_div_mod_converse(1009789469161775int * 1009789469161775int, m, 411014200036437int, 1020177717051358int);
    lemma_fundamental_div_mod_converse(1020177717051358int * 6, m, 2int, 1159316698816966int);
    assert(mod_pow(6, 77527337554549, 2480874801745591) == 1159316698816966);
    lemma_fundamental_div_mod_converse(1159316698816966int * 1159316698816966int, m, 541750517684404int, 791129532982392int);
    lemma_fundamental_div_mod_converse(791129532982392int * 6, m, 1int, 2265902396148761int);
    assert(mod_pow(6, 155054675109099, 2480874801745591) == 2265902396148761);
    lemma_fundamental_div_mod_converse(2265902396148761int * 2265902396148761int, m, 2069557748444256int, 1333871484559825int);
    assert(mod_pow(6, 310109350218198, 2480874801745591) == 1333871484559825);
    lemma_fundamental_div_mod_converse(1333871484559825int * 1333871484559825int, m, 717171675116351int, 777981177772184int);
    lemma_fundamental_div_mod_converse(777981177772184int * 6, m, 1int, 2187012264887513int);
    assert(mod_pow(6, 620218700436397, 2480874801745591) == 2187012264887513);
    lemma_fundamental_div_mod_converse(2187012264887513int * 2187012264887513int, m, 1927958090993944int, 413479133624265int);
    lemma_fundamental_div_mod_converse(413479133624265int * 6, m, 0int, 2480874801745590int);
    assert(mod_pow(6, 1240437400872795, 2480874801745591) == 2480874801745590);
}

#[verifier::rlimit(100)]
pub proof fn lemma_pow_2480874801745591_by_3()
    ensures
        mod_pow(6, 826958267248530, 2480874801745591) == 2407620892277407,
{
    let m = 2480874801745591int;
    lemma_fundamental_div_mod_converse(1, m, 0, 1);
    assert(mod_pow(6, 0, 2480874801745591) == 1);
    lemma_fundamental_div_mod_converse(1int * 1int, m, 0int, 1int);
    lemma_fundamental_div_mod_converse(1int * 6, m, 0int, 6int);
    assert(mod_pow(6, 1, 2480874801745591) == 6);
    lemma_fundamental_div_mod_converse(6int * 6int, m, 0int, 36int);
    assert(mod_pow(6, 2, 2480874801745591) == 36);
    lemma_fundamental_div_mod_converse(36int * 36int, m, 0int, 1296int);
    lemma_fundamental_div_mod_converse(1296int * 6, m, 0int, 7776int);
    assert(mod_pow(6, 5, 2480874801745591) == 7776);
    lemma_fundamental_div_mod_converse(7776int * 7776int, m, 0int, 60466176int);
    lemma_fundamental_div_mod_converse(60466176int * 6, m, 0int, 362797056int);
    assert(mod_pow(6, 11, 2480874801745591) == 362797056);
    lemma_fundamental_div_mod_converse(362797056int * 362797056int, m, 53int, 135339349750813int);
    lemma_fundamental_div_mod_converse(135339349750813int * 6, m, 0int, 812036098504878int);
    assert(mod_pow(6, 23, 2480874801745591) == 812036098504878);
    lemma_fundamental_div_mod_converse(812036098504878int * 812036098504878int, m, 265794398335238int, 1710640183359226int);
    lemma_fundamental_div_mod_converse(1710640183359226int * 6, m, 4int, 340341893172992int);
    assert(mod_pow(6, 47, 2480874801745591) == 340341893172992);
    lemma_fundamental_div_mod_converse(340341893172992int * 340341893172992int, m, 46690225628102int, 1837263654033782int);
    assert(mod_pow(6, 94, 2480874801745591) == 1837263654033782);
    lemma_fundamental_div_mod_converse(1837263654033782int * 1837263654033782int, m, 1360623975082689int, 575894231049325int);
    assert(mod_pow(6, 188, 2480874801745591) == 575894231049325);
    lemma_fundamental_div_mod_converse(575894231049325int * 575894231049325int, m, 133684362113934int, 1518080558790631int);
    assert(mod_pow(6, 376, 2480874801745591) == 1518080558790631);
    lemma_fundamental_div_mod_converse(1518080558790631int * 1518080558790631int, m, 928933850816065int, 800687427658746int);
    assert(mod_pow(6, 752, 2480874801745591) == 800687427658746);
    lemma_fundamental_div_mod_converse(800687427658746int * 800687427658746int, m, 258417053677875int, 1720810414793391int);
    assert(mod_pow(6, 1504, 2480874801745591) == 1720810414793391);
    lemma_fundamental_div_mod_converse(1720810414793391int * 1720810414793391int, m, 1193606578444770int, 401307232769811int);
    assert(mod_pow(6, 3008, 2480874801745591) == 401307232769811);
    lemma_fundamental_div_mod_converse(401307232769811int * 401307232769811int, m, 64915607575217int, 2207564482357474int);
    assert(mod_pow(6, 6016, 2480874801745591) == 2207564482357474);
    lemma_fundamental_div_mod_converse(2207564482357474int * 2207564482357474int, m, 1964363917250981int, 2122547866485905int);
    lemma_fundamental_div_mod_converse(2122547866485905int * 6, m, 5int, 330913190187475int);
    assert(mod_pow(6, 12033, 2480874801745591) == 330913190187475);
    lemma_fundamental_div_mod_converse(330913190187475int * 330913190187475int, m, 44139083263292int, 326291393730053int);
    lemma_fundamental_div_mod_converse(326291393730053int * 6, m, 0int, 1957748362380318int);
    assert(mod_pow(6, 24067, 2480874801745591) == 1957748362380318);
    lemma_fundamental_div_mod_converse(1957748362380318int * 1957748362380318int, m, 1544930299467752int, 1151395061099692int);
    lemma_fundamental_div_mod_converse(1151395061099692int * 6, m, 2int, 1946620763106970int);
    assert(mod_pow(6, 48135, 2480874801745591) == 1946620763106970);
    lemma_fundamental_div_mod_converse(1946620763106970int * 1946620763106970int, m, 1527417825636713int, 168844247098517int);
    assert(mod_pow(6, 96270, 2480874801745591) == 168844247098517);
    lemma_fundamental_div_mod_converse(168844247098517int * 168844247098517int, m, 11491260968996int, 266946172902653int);
    lemma_fundamental_div_mod_converse(266946172902653int * 6, m, 0int, 1601677037415918int);
    assert(mod_pow(6, 192541, 2480874801745591) == 1601677037415918);
    lemma_fundamental_div_mod_converse(1601677037415918int * 1601677037415918int, m, 1034058361341083int, 2000482777367671int);
    assert(mod_pow(6, 385082, 2480874801745591) == 2000482777367671);
    lemma_fundamental_div_mod_converse(2000482777367671int * 2000482777367671int, m, 1613112979231694int, 2230898684003087int);
    assert(mod_pow(6, 770164, 2480874801745591) == 2230898684003087);
    lemma_fundamental_div_mod_converse(2230898684003087int * 2230898684003087int, m, 2006110479571503int, 435504926036296int);
    lemma_fundamental_div_mod_converse(435504926036296int * 6, m, 1int, 132154754472185int);
    assert(mod_pow(6, 1540329, 2480874801745591) == 132154754472185);
    lemma_fundamental_div_mod_converse(132154754472185int * 132154754472185int, m, 7039806731607int, 708181906079488int);
    lemma_fundamental_div_mod_converse(708181906079488int * 6, m, 1int, 1768216634731337int);
    assert(mod_pow(6, 3080659, 2480874801745591) == 1768216634731337);
    lemma_fundamental_div_mod_converse(1768216634731337int * 1768216634731337int, m, 1260277247824310int, 325759284690359int);
    lemma_fundamental_div_mod_converse(325759284690359int * 6, m, 0int, 1954555708142154int);
    assert(mod_pow(6, 6161319, 2480874801745591) == 1954555708142154);
    lemma_fundamental_div_mod_converse(1954555708142154int * 1954555708142154int, m, 1539895529408839int, 1738816767080867int);
    assert(mod_pow(6, 12322638, 2480874801745591) == 1738816767080867);
    lemma_fundamental_div_mod_converse(1738816767080867int * 1738816767080867int, m, 1218716779804517int, 1886153170837142int);
    assert(mod_pow(6, 24645276, 2480874801745591) == 1886153170837142);
    lemma_fundamental_div_mod_converse(1886153170837142int * 1886153170837142int, m, 1433999725159781int, 1304120899452593int);
    lemma_fundamental_div_mod_converse(1304120899452593int * 6, m, 3int, 382100991478785int);
    assert(mod_pow(6, 49290553, 2480874801745591) == 382100991478785);
    lemma_fundamental_div_mod_converse(382100991478785int * 382100991478785int, m, 58850679440309int, 608493016648606int);
    lemma_fundamental_div_mod_converse(608493016648606int * 6, m, 1int, 1170083298146045int);
    assert(mod_pow(6, 98581107, 2480874801745591) == 1170083298146045);
    lemma_fundamental_div_mod_converse(1170083298146045int * 1170083298146045int, m, 551859740619319int, 137785531469496int);
    lemma_fundamental_div_mod_converse(137785531469496int * 6, m, 0int, 826713188816976int);
    assert(mod_pow(6, 197162215, 2480874801745591) == 826713188816976);
    lemma_fundamental_div_mod_converse(826713188816976int * 826713188816976int, m, 275489394339061int, 2113709909954525int);
    assert(mod_pow(6, 394324430, 2480874801745591) == 2113709909954525);
    lemma_fundamental_div_mod_converse(2113709909954525int * 2113709909954525int, m, 1800884744484630int, 427353898209295int);
    assert(mod_pow(6, 788648860, 2480874801745591) == 427353898209295);
    lemma_fundamental_div_mod_converse(427353898209295int * 427353898209295int, m, 73615707727845int, 1636533267715630int);
    assert(mod_pow(6, 1577297720, 2480874801745591) == 1636533267715630);
    lemma_fundamental_div_mod_converse(1636533267715630int * 1636533267715630int, m, 1079555136944248int, 2294034499486332int);
    assert(mod_pow(6, 3154595440, 2480874801745591) == 2294034499486332);
    lemma_fundamental_div_mod_converse(2294034499486332int * 2294034499486332int, m, 2121265563715929int, 1081850202595185int);
    lemma_fundamental_div_mod_converse(1081850202595185int * 6, m, 2int, 1529351612079928int);
    assert(mod_pow(6, 6309190881, 2480874801745591) == 1529351612079928);
    lemma_fundamental_div_mod_converse(1529351612079928int * 1529351612079928int, m, 942778874502561int, 2136609660526633int);
    lemma_fundamental_div_mod_converse(2136609660526633int * 6, m, 5int, 415283954431843int);
    assert(mod_pow(6, 12618381763, 2480874801745591) == 415283954431843);
    lemma_fundamental_div_mod_converse(415283954431843int * 415283954431843int, m, 69516108869017int, 1583212556122602int);
    assert(mod_pow(6, 25236763526, 2480874801745591) == 1583212556122602);
    lemma_fundamental_div_mod_converse(1583212556122602int * 1583212556122602int, m, 1010354088042088int, 726114578816396int);
    lemma_fundamental_div_mod_converse(726114578816396int * 6, m, 1int, 1875812671152785int);
    assert(mod_pow(6, 50473527053, 2480874801745591) == 1875812671152785);
    lemma_fundamental_div_mod_converse(1875812671152785int * 1875812671152785int, m, 1418319527765585int, 382350957970490int);
    lemma_fundamental_div_mod_converse(382350957970490int * 6, m, 0int, 2294105747822940int);
    assert(mod_pow(6, 100947054107, 2480874801745591) == 2294105747822940);
    lemma_fundamental_div_mod_converse(2294105747822940int * 2294105747822940int, m, 2121397330688013int, 574904170942917int);
    assert(mod_pow(6, 201894108214, 2480874801745591) == 574904170942917);
    lemma_fundamental_div_mod_converse(574904170942917int * 574904170942917int, m, 133225104924684int, 1753723088400645int);
    lemma_fundamental_div_mod_converse(1753723088400645int * 6, m, 4int, 598839323421506int);
    assert(mod_pow(6, 403788216429, 2480874801745591) == 598839323421506);
    lemma_fundamental_div_mod_converse(598839323421506int * 598839323421506int, m, 144549227161162int, 890031463371294int);
    lemma_fundamental_div_mod_converse(890031463371294int * 6, m, 2int, 378439176736582int);
    assert(mod_pow(6, 807576432859, 2480874801745591) == 378439176736582);
    lemma_fundamental_div_mod_converse(378439176736582int * 378439176736582int, m, 57728108805930int, 2452072764888094int);
    lemma_fundamental_div_mod_converse(2452072764888094int * 6, m, 5int, 2308062580600609int);
    assert(mod_pow(6, 1615152865719, 2480874801745591) == 2308062580600609);
    lemma_fundamental_div_mod_converse(2308062580600609int * 2308062580600609int, m, 2147288074440699int, 1735946956962772int);
    lemma_fundamental_div_mod_converse(1735946956962772int * 6, m, 4int, 492182534794268int);
    assert(mod_pow(6, 3230305731439, 2480874801745591) == 492182534794268);
    lemma_fundamental_div_mod_converse(492182534794268int * 492182534794268int, m, 97644446783877int, 2067355571019517int);
    lemma_fundamental_div_mod_converse(2067355571019517int * 6, m, 4int, 2480634219134738int);
    assert(mod_pow(6, 6460611462879, 2480874801745591) == 2480634219134738);
    lemma_fundamental_div_mod_converse(2480634219134738int * 2480634219134738int, m, 2480393659854362int, 142840962710702int);
    assert(mod_pow(6, 12921222925758, 2480874801745591) == 142840962710702);
    lemma_fundamental_div_mod_converse(142840962710702int * 142840962710702int, m, 8224333051294int, 1445509203988050int);
    assert(mod_pow(6, 25842445851516, 2480874801745591) == 1445509203988050);
    lemma_fundamental_div_mod_converse(1445509203988050int * 1445509203988050int, m, 842241961321045int, 708354178539905int);
    lemma_fundamental_div_mod_converse(708354178539905int * 6, m, 1int, 1769250269493839int);
    assert(mod_pow(6, 51684891703033, 2480874801745591) == 1769250269493839);
    lemma_fundamental_div_mod_converse(1769250269493839int * 1769250269493839int, m, 1261751102434318int, 2378393435365983int);
    assert(mod_pow(6, 103369783406066, 2480874801745591) == 2378393435365983);
    lemma_fundamental_div_mod_converse(2378393435365983int * 2378393435365983int, m, 2280145426690537int, 376887392383922int);
    assert(mod_pow(6, 206739566812132, 2480874801745591) == 376887392383922);
    lemma_fundamental_div_mod_converse(376887392383922int * 376887392383922int, m, 57255652900342int, 2055186683209962int);
    lemma_fundamental_div_mod_converse(2055186683209962int * 6, m, 4int, 2407620892277408int);
    assert(mod_pow(6, 413479133624265, 2480874801745591) == 2407620892277408);
    lemma_fundamental_div_mod_converse(2407620892277408int * 2407620892277408int, m, 2336529984041127int, 2407620892277407int);
    assert(mod_pow(6, 826958267248530, 2480874801745591) == 2407620892277407);
}

#[verifier::rlimit(100)]
pub proof fn lemma_pow_2480874801745591_by_5()
    ensures
        mod_pow(6, 496174960349118, 2480874801745591) == 1827406440318507,
{
    let m = 2480874801745591int;
    lemma_fundamental_div_mod_converse(1, m, 0, 1);
    assert(mod_pow(6, 0, 2480874801745591) == 1);
    lemma_fundamental_div_mod_converse(1int * 1int, m, 0int, 1int);
    lemma_fundamental_div_mod_converse(1int * 6, m, 0int, 6int);
    assert(mod_pow(6, 1, 2480874801745591) == 6);
    lemma_fundamental_div_mod_converse(6int * 6int, m, 0int, 36int);
    lemma_fundamental_div_mod_converse(36int * 6, m, 0int, 216int);
    assert(mod_pow(6, 3, 2480874801745591) == 216);
    lemma_fundamental_div_mod_converse(216int * 216int, m, 0int, 46656int);
    lemma_fundamental_div_mod_converse(46656int * 6, m, 0int, 279936int);
    assert(mod_pow(6, 7, 2480874801745591) == 279936);
    lemma_fundamental_div_mod_converse(279936int * 279936int, m, 0int, 78364164096int);
    assert(mod_pow(6, 14, 2480874801745591) == 78364164096);
    lemma_fundamental_div_mod_converse(78364164096int * 78364164096int, m, 2475313int, 566331531402233int);
    assert(mod_pow(6, 28, 2480874801745591) == 566331531402233);
    lemma_fundamental_div_mod_converse(566331531402233int * 566331531402233int, m, 129281575690448int, 623677772571521int);
    assert(mod_pow(6, 56, 2480874801745591) == 623677772571521);
    lemma_fundamental_div_mod_converse(623677772571521int * 623677772571521int, m, 156789034144763int, 2266614869263508int);
    assert(mod_pow(6, 112, 2480874801745591) == 2266614869263508);
    lemma_fundamental_div_mod_converse(2266614869263508int * 2266614869263508int, m, 2070859425051016int, 1579439312395608int);
    lemma_fundamental_div_mod_converse(1579439312395608int * 6, m, 3int, 2034011469136875int);
    assert(mod_pow(6, 225, 2480874801745591) == 2034011469136875);
    lemma_fundamental_div_mod_converse(2034011469136875int * 2034011469136875int, m, 1667638630401394int, 1356705285011771int);
    lemma_fundamental_div_mod_converse(1356705285011771int * 6, m, 3int, 697607304833853int);
    assert(mod_pow(6, 451, 2480874801745591) == 697607304833853);
    lemma_fundamental_div_mod_converse(697607304833853int * 697607304833853int, m, 196163043542194int, 28568872858955int);
    assert(mod_pow(6, 902, 2480874801745591) == 28568872858955);
    lemma_fundamental_div_mod_converse(28568872858955int * 28568872858955int, m, 328988990438int, 1780252116033167int);
    lemma_fundamental_div_mod_converse(1780252116033167int * 6, m, 4int, 758013489216638int);
    assert(mod_pow(6, 1805, 2480874801745591) == 758013489216638);
    lemma_fundamental_div_mod_converse(758013489216638int * 758013489216638int, m, 231605580995096int, 965791285401308int);
    assert(mod_pow(6, 3610, 2480874801745591) == 965791285401308);
    lemma_fundamental_div_mod_converse(965791285401308int * 965791285401308int, m, 375977379552087int, 107505301012447int);
    assert(mod_pow(6, 7220, 2480874801745591) == 107505301012447);
    lemma_fundamental_div_mod_converse(107505301012447int * 107505301012447int, m, 4658594515791int, 743337034800328int);
    assert(mod_pow(6, 14440, 2480874801745591) == 743337034800328);
    lemma_fundamental_div_mod_converse(743337034800328int * 743337034800328int, m, 222723833914133int, 1396620423569981int);
    lemma_fundamental_div_mod_converse(1396620423569981int * 6, m, 3int, 937098136183113int);
    assert(mod_pow(6, 28881, 2480874801745591) == 937098136183113);
    lemma_fundamental_div_mod_converse(937098136183113int * 937098136183113int, m, 353969058099981int, 252511662436998int);
    assert(mod_pow(6, 57762, 2480874801745591) == 252511662436998);
    lemma_fundamental_div_mod_converse(252511662436998int * 252511662436998int, m, 25701474182345int, 1849306885461109int);
    assert(mod_pow(6, 115524, 2480874801745591) == 1849306885461109);
    lemma_fundamental_div_mod_converse(1849306885461109int * 1849306885461109int, m, 1378520171274880int, 1252763662455801int);
    lemma_fundamental_div_mod_converse(1252763662455801int * 6, m, 3int, 73957569498033int);
    assert(mod_pow(6, 231049, 2480874801745591) == 73957569498033);
    lemma_fundamental_div_mod_converse(73957569498033int * 73957569498033int, m, 2204755387981int, 1494230329727318int);
    assert(mod_pow(6, 462098, 2480874801745591) == 1494230329727318);
    lemma_fundamental_div_mod_converse(1494230329727318int * 1494230329727318int, m, 899974588280723int, 912372299930831int);
    lemma_fundamental_div_mod_converse(912372299930831int * 6, m, 2int, 512484196093804int);
    assert(mod_pow(6, 924197, 2480874801745591) == 512484196093804);
    lemma_fundamental_div_mod_converse(512484196093804int * 512484196093804int, m, 105865903052066int, 356140608249410int);
    lemma_fundamental_div_mod_converse(356140608249410int * 6, m, 0int, 2136843649496460int);
    assert(mod_pow(6, 1848395, 2480874801745591) == 2136843649496460);
    lemma_fundamental_div_mod_converse(2136843649496460int * 2136843649496460int, m, 1840520440282014int, 655492031431326int);
    lemma_fundamental_div_mod_converse(655492031431326int * 6, m, 1int, 1452077386842365int);
    assert(mod_pow(6, 3696791, 2480874801745591) == 1452077386842365);
    lemma_fundamental_div_mod_converse(1452077386842365int * 1452077386842365int, m, 849913399860142int, 337428493659303int);
    lemma_fundamental_div_mod_converse(337428493659303int * 6, m, 0int, 2024570961955818int);
    assert(mod_pow(6, 7393583, 2480874801745591) == 2024570961955818);
    lemma_fundamental_div_mod_converse(2024570961955818int * 2024570961955818int, m, 1652194450566651int, 306061893163383int);
    assert(mod_pow(6, 14787166, 2480874801745591) == 306061893163383);
    lemma_fundamental_div_mod_converse(306061893163383int * 306061893163383int, m, 37758407792623int, 1306137199429496int);
    assert(mod_pow(6, 29574332, 2480874801745591) == 1306137199429496);
    lemma_fundamental_div_mod_converse(1306137199429496int * 1306137199429496int, m, 687658394745739int, 408608065527267int);
    assert(mod_pow(6, 59148664, 2480874801745591) == 408608065527267);
    lemma_fundamental_div_mod_converse(408608065527267int * 408608065527267int, m, 67299063659503int, 1909437864988016int);
    lemma_fundamental_div_mod_converse(1909437864988016int * 6, m, 4int, 1533127982945732int);
    assert(mod_pow(6, 118297329, 2480874801745591) == 1533127982945732);
    lemma_fundamental_div_mod_converse(1533127982945732int * 1533127982945732int, m, 947440560256166int, 1221205135951718int);
    assert(mod_pow(6, 236594658, 2480874801745591) == 1221205135951718);
    lemma_fundamental_div_mod_converse(1221205135951718int * 1221205135951718int, m, 601135528090944int, 2197822628123620int);
    assert(mod_pow(6, 473189316, 2480874801745591) == 2197822628123620);
    lemma_fundamental_div_mod_converse(2197822628123620int * 2197822628123620int, m, 1947064922943083int, 595648462707347int);
    assert(mod_pow(6, 946378632, 2480874801745591) == 595648462707347);
    lemma_fundamental_div_mod_converse(595648462707347int * 595648462707347int, m, 143012896449262int, 150477604074567int);
    assert(mod_pow(6, 1892757264, 2480874801745591) == 150477604074567);
    lemma_fundamental_div_mod_converse(150477604074567int * 150477604074567int, m, 9127227747280int, 2015845893995009int);
    lemma_fundamental_div_mod_converse(2015845893995009int * 6, m, 4int, 2171576156987690int);
    assert(mod_pow(6, 3785514529, 2480874801745591) == 2171576156987690);
    lemma_fundamental_div_mod_converse(2171576156987690int * 2171576156987690int, m, 1900838769566016int, 1364612500100644int);
    assert(mod_pow(6, 7571029058, 2480874801745591) == 1364612500100644);
    lemma_fundamental_div_mod_converse(1364612500100644int * 1364612500100644int, m, 750609129537965int, 568088823352421int);
    assert(mod_pow(6, 15142058116, 2480874801745591) == 568088823352421);
    lemma_fundamental_div_mod_converse(568088823352421int * 568088823352421int, m, 130085126017186int, 1651782900834315int);
    assert(mod_pow(6, 30284116232, 2480874801745591) == 1651782900834315);
    lemma_fundamental_div_mod_converse(1651782900834315int * 1651782900834315int, m, 1099768013109278int, 1918957243825927int);
    assert(mod_pow(6, 60568232464, 2480874801745591) == 1918957243825927);
    lemma_fundamental_div_mod_converse(1918957243825927int * 1918957243825927int, m, 1484313880346155int, 2080259352356724int);
    assert(mod_pow(6, 121136464928, 2480874801745591) == 2080259352356724);
    lemma_fundamental_div_mod_converse(2080259352356724int * 2080259352356724int, m, 1744335897169304int, 2108078085473512int);
    lemma_fundamental_div_mod_converse(2108078085473512int * 6, m, 5int, 244094504113117int);
    assert(mod_pow(6, 242272929857, 2480874801745591) == 244094504113117);
    lemma_fundamental_div_mod_converse(244094504113117int * 244094504113117int, m, 24016579513123int, 2246981439564996int);
    lemma_fundamental_div_mod_converse(2246981439564996int * 6, m, 5int, 1077514628662021int);
    assert(mod_pow(6, 484545859715, 2480874801745591) == 1077514628662021);
    lemma_fundamental_div_mod_converse(1077514628662021int * 1077514628662021int, m, 467995311236070int, 1690152765137071int);
    lemma_fundamental_div_mod_converse(1690152765137071int * 6, m, 4int, 217417383840062int);
    assert(mod_pow(6, 969091719431, 2480874801745591) == 217417383840062);
    lemma_fundamental_div_mod_converse(217417383840062int * 217417383840062int, m, 19053891297777int, 2296417218312637int);
    lemma_fundamental_div_mod_converse(2296417218312637int * 6, m, 5int, 1374129301147867int);
    assert(mod_pow(6, 1938183438863, 2480874801745591) == 1374129301147867);
    lemma_fundamental_div_mod_converse(1374129301147867int * 1374129301147867int, m, 761115125577691int, 598464711439308int);
    lemma_fundamental_div_mod_converse(598464711439308int * 6, m, 1int, 1109913466890257int);
    assert(mod_pow(6, 3876366877727, 2480874801745591) == 1109913466890257);
    lemma_fundamental_div_mod_converse(1109913466890257int * 1109913466890257int, m, 496561899503173int, 1223338038265806int);
    assert(mod_pow(6, 7752733755454, 2480874801745591) == 1223338038265806);
    lemma_fundamental_div_mod_converse(1223338038265806int * 1223338038265806int, m, 603237194724629int, 181702148968897int);
    lemma_fundamental_div_mod_converse(181702148968897int * 6, m, 0int, 1090212893813382int);
    assert(mod_pow(6, 15505467510909, 2480874801745591) == 1090212893813382);
    lemma_fundamental_div_mod_converse(1090212893813382int * 1090212893813382int, m, 479090743716955int, 53680219082519int);
    lemma_fundamental_div_mod_converse(53680219082519int * 6, m, 0int, 322081314495114int);
    assert(mod_pow(6, 31010935021819, 2480874801745591) == 322081314495114);
    lemma_fundamental_div_mod_converse(322081314495114int * 322081314495114int, m, 41814432987069int, 1425791199110217int);
    lemma_fundamental_div_mod_converse(1425791199110217int * 6, m, 3int, 1112122789424529int);
    assert(mod_pow(6, 62021870043639, 2480874801745591) == 1112122789424529);
    lemma_fundamental_div_mod_converse(1112122789424529int * 1112122789424529int, m, 498540715511781int, 500013261564270int);
    lemma_fundamental_div_mod_converse(500013261564270int * 6, m, 1int, 519204767640029int);
    assert(mod_pow(6, 124043740087279, 2480874801745591) == 519204767640029);
    lemma_fundamental_div_mod_converse(519204767640029int * 519204767640029int, m, 108660699262397int, 61464376279214int);
    lemma_fundamental_div_mod_converse(61464376279214int * 6, m, 0int, 368786257675284int);
    assert(mod_pow(6, 248087480174559, 2480874801745591) == 368786257675284);
    lemma_fundamental_div_mod_converse(368786257675284int * 368786257675284int, m, 54820704275139int, 1827406440318507int);
    assert(mod_pow(6, 496174960349118, 2480874801745591) == 1827406440318507);
}

#[verifier::rlimit(100)]
pub proof fn lemma_pow_2480874801745591_by_19()
    ensures
        mod_pow(6, 130572357986610, 2480874801745591) == 1172307907851451,
{
    let m = 2480874801745591int;
    lemma_fundamental_div_mod_converse(1, m, 0, 1);
    assert(mod_pow(6, 0, 2480874801745591) == 1);
    lemma_fundamental_div_mod_converse(1int * 1int, m, 0int, 1int);
    lemma_fundamental_div_mod_converse(1int * 6, m, 0int, 6int);
    assert(mod_pow(6, 1, 2480874801745591) == 6);
    lemma_fundamental_div_mod_converse(6int * 6int, m, 0int, 36int);
    lemma_fundamental_div_mod_converse(36int * 6, m, 0int, 216int);
    assert(mod_pow(6, 3, 2480874801745591) == 216);
    lemma_fundamental_div_mod_converse(216int * 216int, m, 0int, 46656int);
    lemma_fundamental_div_mod_converse(46656int * 6, m, 0int, 279936int);
    assert(mod_pow(6, 7, 2480874801745591) == 279936);
    lemma_fundamental_div_mod_converse(279936int * 279936int, m, 0int, 78364164096int);
    assert(mod_pow(6, 14, 2480874801745591) == 78364164096);
    lemma_fundamental_div_mod_converse(78364164096int * 78364164096int, m, 2475313int, 566331531402233int);
    lemma_fundamental_div_mod_converse(566331531402233int * 6, m, 1int, 917114386667807int);
    assert(mod_pow(6, 29, 2480874801745591) == 917114386667807);
    lemma_fundamental_div_mod_converse(917114386667807int * 917114386667807int, m, 339033149774932int, 124526596864437int);
    lemma_fundamental_div_mod_converse(124526596864437int * 6, m, 0int, 747159581186622int);
    assert(mod_pow(6, 59, 2480874801745591) == 747159581186622);
    lemma_fundamental_div_mod_converse(747159581186622int * 747159581186622int, m, 225020399806622int, 1414041150667282int);
    assert(mod_pow(6, 118, 2480874801745591) == 1414041150667282);
    lemma_fundamental_div_mod_converse(1414041150667282int * 1414041150667282int, m, 805970690005620int, 1214640265046104int);
    lemma_fundamental_div_mod_converse(1214640265046104int * 6, m, 2int, 2326091986785442int);
    assert(mod_pow(6, 237, 2480874801745591) == 2326091986785442);
    lemma_fundamental_div_mod_converse(2326091986785442int * 2326091986785442int, m, 2180966136292073int, 675675927135221int);
    lemma_fundamental_div_mod_converse(675675927135221int * 6, m, 1int, 1573180761065735int);
    assert(mod_pow(6, 475, 2480874801745591) == 1573180761065735);
    lemma_fundamental_div_mod_converse(1573180761065735int * 1573180761065735int, m, 997590730997783int, 1093371440065472int);
    assert(mod_pow(6, 950, 2480874801745591) == 1093371440065472);
    lemma_fundamental_div_mod_converse(1093371440065472int * 1093371440065472int, m, 481870792153515int, 1616975600180419int);
    assert(mod_pow(6, 1900, 2480874801745591) == 1616975600180419);
    lemma_fundamental_div_mod_converse(1616975600180419int * 1616975600180419int, m, 1053906504971204int, 1802406962053997int);
    assert(mod_pow(6, 3800, 2480874801745591) == 1802406962053997);
    lemma_fundamental_div_mod_converse(1802406962053997int * 1802406962053997int, m, 1309486014600531int, 2155225788167188int);
    assert(mod_pow(6, 7600, 2480874801745591) == 2155225788167188);
    lemma_fundamental_div_mod_converse(2155225788167188int * 2155225788167188int, m, 1872322696297518int, 1365617159084206int);
    assert(mod_pow(6, 15200, 2480874801745591) == 1365617159084206);
    lemma_fundamental_div_mod_converse(1365617159084206int * 1365617159084206int, m, 751714767658985int, 184917983365301int);
    lemma_fundamental_div_mod_converse(184917983365301int * 6, m, 0int, 1109507900191806int);
    assert(mod_pow(6, 30401, 2480874801745591) == 1109507900191806);
    lemma_fundamental_div_mod_converse(1109507900191806int * 1109507900191806int, m, 496199074504634int, 932084770972942int);
    assert(mod_pow(6, 60802, 2480874801745591) == 932084770972942);
    lemma_fundamental_div_mod_converse(932084770972942int * 932084770972942int, m, 350191803177004int, 918534546546000int);
    assert(mod_pow(6, 121604, 2480874801745591) == 918534546546000);
    lemma_fundamental_div_mod_converse(918534546546000int * 918534546546000int, m, 340083954500573int, 209049106276357int);
    lemma_fundamental_div_mod_converse(209049106276357int * 6, m, 0int, 1254294637658142int);
    assert(mod_pow(6, 243209, 2480874801745591) == 1254294637658142);
    lemma_fundamental_div_mod_converse(1254294637658142int * 1254294637658142int, m, 634153338552593int, 922648299524701int);
    lemma_fundamental_div_mod_converse(922648299524701int * 6, m, 2int, 574140193657024int);
    assert(mod_pow(6, 486419, 2480874801745591) == 574140193657024);
    lemma_fundamental_div_mod_converse(574140193657024int * 574140193657024int, m, 132871260468519int, 1164909241986847int);
    lemma_fundamental_div_mod_converse(1164909241986847int * 6, m, 2int, 2027705848429900int);
    assert(mod_pow(6, 972839, 2480874801745591) == 2027705848429900);
    lemma_fundamental_div_mod_converse(2027705848429900int * 2027705848429900int, m, 1657314994236640int, 1041518683355760int);
    lemma_fundamental_div_mod_converse(1041518683355760int * 6, m, 2int, 1287362496643378int);
    assert(mod_pow(6, 1945679, 2480874801745591) == 1287362496643378);
    lemma_fundamental_div_mod_converse(1287362496643378int * 1287362496643378int, m, 668031372078011int, 757477083951383int);
    lemma_fundamental_div_mod_converse(757477083951383int * 6, m, 1int, 2063987701962707int);
    assert(mod_pow(6, 3891359, 2480874801745591) == 2063987701962707);
    lemma_fundamental_div_mod_converse(2063987701962707int * 2063987701962707int, m, 1717154461343977int, 172848524612442int);
    lemma_fundamental_div_mod_converse(172848524612442int * 6, m, 0int, 1037091147674652int);
    assert(mod_pow(6, 7782719, 2480874801745591) == 1037091147674652);
    lemma_fundamental_div_mod_converse(1037091147674652int * 1037091147674652int, m, 433539833541113int, 1605243578338321int);
    assert(mod_pow(6, 15565438, 2480874801745591) == 1605243578338321);
    lemma_fundamental_div_mod_converse(1605243578338321int * 1605243578338321int, m, 1038668676058673int, 1449169202038298int);
    assert(mod_pow(6, 31130876, 2480874801745591) == 1449169202038298);
    lemma_fundamental_div_mod_converse(1449169202038298int * 1449169202038298int, m, 846512437733114int, 1227375674536430int);
    assert(mod_pow(6, 62261752, 2480874801745591) == 1227375674536430);
    lemma_fundamental_div_mod_converse(1227375674536430int * 1227375674536430int, m, 607225743670655int, 1259781594812795int);
    assert(mod_pow(6, 124523504, 2480874801745591) == 1259781594812795);
    lemma_fundamental_div_mod_converse(1259781594812795int * 1259781594812795int, m, 639713727396638int, 1854008670988967int);
    assert(mod_pow(6, 249047008, 2480874801745591) == 1854008670988967);
    lemma_fundamental_div_mod_converse(1854008670988967int * 1854008670988967int, m, 1385538742093592int, 93034340374217int);
    assert(mod_pow(6, 498094016, 2480874801745591) == 93034340374217);
    lemma_fundamental_div_mod_converse(93034340374217int * 93034340374217int, m, 3488845339061int, 1675776541533038int);
    lemma_fundamental_div_mod_converse(1675776541533038int * 6, m, 4int, 131160042215864int);
    assert(mod_pow(6, 996188033, 2480874801745591) == 131160042215864);
    lemma_fundamental_div_mod_converse(131160042215864int * 131160042215864int, m, 6934230079632int, 1874966638363984int);
    lemma_fundamental_div_mod_converse(1874966638363984int * 6, m, 4int, 1326300623201540int);
    assert(mod_pow(6, 1992376067, 2480874801745591) == 1326300623201540);
    lemma_fundamental_div_mod_converse(1326300623201540int * 1326300623201540int, m, 709053653923638int, 1068830841191542int);
    lemma_fundamental_div_mod_converse(1068830841191542int * 6, m, 2int, 1451235443658070int);
    assert(mod_pow(6, 3984752135, 2480874801745591) == 1451235443658070);
    lemma_fundamental_div_mod_converse(1451235443658070int * 1451235443658070int, m, 848928092400129int, 2474793042543661int);
    lemma_fundamental_div_mod_converse(2474793042543661int * 6, m, 5int, 2444384246534011int);
    assert(mod_pow(6, 7969504271, 2480874801745591) == 2444384246534011);
    lemma_fundamental_div_mod_converse(2444384246534011int * 2444384246534011int, m, 2408430421599473int, 1940415934074578int);
    lemma_fundamental_div_mod_converse(1940415934074578int * 6, m, 4int, 1718996397465104int);
    assert(mod_pow(6, 15939008543, 2480874801745591) == 1718996397465104);
    lemma_fundamental_div_mod_converse(1718996397465104int * 1718996397465104int, m, 1191091389383634int, 2277168130673122int);
    assert(mod_pow(6, 31878017086, 2480874801745591) == 2277168130673122);
    lemma_fundamental_div_mod_converse(2277168130673122int * 2277168130673122int, m, 2090187981958907int, 490997582797847int);
    lemma_fundamental_div_mod_converse(490997582797847int * 6, m, 1int, 465110695041491int);
    assert(mod_pow(6, 63756034173, 2480874801745591) == 465110695041491);
    lemma_fundamental_div_mod_converse(465110695041491int * 465110695041491int, m, 87198257038108int, 1571114403521253int);
    assert(mod_pow(6, 127512068346, 2480874801745591) == 1571114403521253);
    lemma_fundamental_div_mod_converse(1571114403521253int * 1571114403521253int, m, 994971800759606int, 1397097061292863int);
    assert(mod_pow(6, 255024136692, 2480874801745591) == 1397097061292863);
    lemma_fundamental_div_mod_converse(1397097061292863int * 1397097061292863int, m, 786770939549135int, 1139800540622984int);
    lemma_fundamental_div_mod_converse(1139800540622984int * 6, m, 2int, 1877053640246722int);
    assert(mod_pow(6, 510048273385, 2480874801745591) == 1877053640246722);
    lemma_fundamental_div_mod_converse(1877053640246722int * 1877053640246722int, m, 1420196765223455int, 1886359855708379int);
    assert(mod_pow(6, 1020096546770, 2480874801745591) == 1886359855708379);
    lemma_fundamental_div_mod_converse(1886359855708379int * 1886359855708379int, m, 1434314018073145int, 812583571553946int);
    assert(mod_pow(6, 2040193093540, 2480874801745591) == 812583571553946);
    lemma_fundamental_div_mod_converse(812583571553946int * 812583571553946int, m, 266152915211510int, 916584213218506int);
    lemma_fundamental_div_mod_converse(916584213218506int * 6, m, 2int, 537755675819854int);
    assert(mod_pow(6, 4080386187081, 2480874801745591) == 537755675819854);
    lemma_fundamental_div_mod_converse(537755675819854int * 537755675819854int, m, 116564192063619int, 2129525335827487int);
    lemma_fundamental_div_mod_converse(2129525335827487int * 6, m, 5int, 372778006236967int);
    assert(mod_pow(6, 8160772374163, 2480874801745591) == 372778006236967);
    lemma_fundamental_div_mod_converse(372778006236967int * 372778006236967int, m, 56013887454631int, 678537140577168int);
    assert(mod_pow(6, 16321544748326, 2480874801745591) == 678537140577168);
    lemma_fundamental_div_mod_converse(678537140577168int * 678537140577168int, m, 185584798885733int, 1214472017347021int);
    assert(mod_pow(6, 32643089496652, 2480874801745591) == 1214472017347021);
    lemma_fundamental_div_mod_converse(1214472017347021int * 1214472017347021int, m, 594525076348530int, 1160150830743211int);
    lemma_fundamental_div_mod_converse(1160150830743211int * 6, m, 2int, 1999155380968084int);
    assert(mod_pow(6, 65286178993305, 2480874801745591) == 1999155380968084);
    lemma_fundamental_div_mod_converse(1999155380968084int * 1999155380968084int, m, 1610972965843155int, 1172307907851451int);
    assert(mod_pow(6, 130572357986610, 2480874801745591) == 1172307907851451);
}

#[verifier::rlimit(100)]
pub proof fn lemma_pow_2480874801745591_by_41()
    ensures
        mod_pow(6, 60509141505990, 2480874801745591) == 2279967835349712,
{
    let m = 2480874801745591int;
    lemma_fundamental_div_mod_converse(1, m, 0, 1);
    assert(mod_pow(6, 0, 2480874801745591) == 1);
    lemma_fundamental_div_mod_converse(1int * 1int, m, 0int, 1int);
    lemma_fundamental_div_mod_converse(1int * 6, m, 0int, 6int);
    assert(mod_pow(6, 1, 2480874801745591) == 6);
    lemma_fundamental_div_mod_converse(6int * 6int, m, 0int, 36int);
    lemma_fundamental_div_mod_converse(36int * 6, m, 0int, 216int);
    assert(mod_pow(6, 3, 2480874801745591) == 216);
    lemma_fundamental_div_mod_converse(216int * 216int, m, 0int, 46656int);
    assert(mod_pow(6, 6, 2480874801745591) == 46656);
    lemma_fundamental_div_mod_converse(46656int * 46656int, m, 0int, 2176782336int);
    lemma_fundamental_div_mod_converse(2176782336int * 6, m, 0int, 13060694016int);
    assert(mod_pow(6, 13, 2480874801745591) == 13060694016);
    lemma_fundamental_div_mod_converse(13060694016int * 13060694016int, m, 68758int, 1738561154862278int);
    lemma_fundamental_div_mod_converse(1738561154862278int * 6, m, 4int, 507867722191304int);
    assert(mod_pow(6, 27, 2480874801745591) == 507867722191304);
    lemma_fundamental_div_mod_converse(507867722191304int * 507867722191304int, m, 103967206673347int, 913195838757339int);
    lemma_fundamental_div_mod_converse(913195838757339int * 6, m, 2int, 517425429052852int);
    assert(mod_pow(6, 55, 2480874801745591) == 517425429052852);
    lemma_fundamental_div_mod_converse(517425429052852int * 517425429052852int, m, 107917205028705int, 1165572547144249int);
    assert(mod_pow(6, 110, 2480874801745591) == 1165572547144249);
    lemma_fundamental_div_mod_converse(1165572547144249int * 1165572547144249int, m, 547613028154594int, 1425424607878947int);
    assert(mod_pow(6, 220, 2480874801745591) == 1425424607878947);
    lemma_fundamental_div_mod_converse(1425424607878947int * 1425424607878947int, m, 818999536501080int, 2049165749090529int);
    assert(mod_pow(6, 440, 2480874801745591) == 2049165749090529);
    lemma_fundamental_div_mod_converse(2049165749090529int * 2049165749090529int, m, 1692580481808753int, 1860245214541818int);
    assert(mod_pow(6, 880, 2480874801745591) == 1860245214541818);
    lemma_fundamental_div_mod_converse(1860245214541818int * 1860245214541818int, m, 1394875813882607int, 1947576916909387int);
    lemma_fundamental_div_mod_converse(1947576916909387int * 6, m, 4int, 1761962294473958int);
    assert(mod_pow(6, 1761, 2480874801745591) == 1761962294473958);
    lemma_fundamental_div_mod_converse(1761962294473958int * 1761962294473958int, m, 1251377588648786int, 1991764117183238int);
    assert(mod_pow(6, 3522, 2480874801745591) == 1991764117183238);
    lemma_fundamental_div_mod_converse(1991764117183238int * 1991764117183238int, m, 1599082829857991int, 1388993827796963int);
    assert(mod_pow(6, 7044, 2480874801745591) == 1388993827796963);
    lemma_fundamental_div_mod_converse(1388993827796963int * 1388993827796963int, m, 777670784636356int, 1417476990716973int);
    assert(mod_pow(6, 14088, 2480874801745591) == 1417476990716973);
    lemma_fundamental_div_mod_converse(1417476990716973int * 1417476990716973int, m, 809892146833973int, 1718352128519686int);
    assert(mod_pow(6, 28176, 2480874801745591) == 1718352128519686);
    lemma_fundamental_div_mod_converse(1718352128519686int * 1718352128519686int, m, 1190198729702335int, 878815860883611int);
    lemma_fundamental_div_mod_converse(878815860883611int * 6, m, 2int, 311145561810484int);
    assert(mod_pow(6, 56353, 2480874801745591) == 311145561810484);
    lemma_fundamental_div_mod_converse(311145561810484int * 311145561810484int, m, 39023154480122int, 1481402221672154int);
    lemma_fundamental_div_mod_converse(1481402221672154int * 6, m, 3int, 1445788924796151int);
    assert(mod_pow(6, 112707, 2480874801745591) == 1445788924796151);
    lemma_fundamental_div_mod_converse(1445788924796151int * 1445788924796151int, m, 842567957718959int, 462681109055032int);
    assert(mod_pow(6, 225414, 2480874801745591) == 462681109055032);
    lemma_fundamental_div_mod_converse(462681109055032int * 462681109055032int, m, 86289646106191int, 609061052467143int);
    assert(mod_pow(6, 450828, 2480874801745591) == 609061052467143);
    lemma_fundamental_div_mod_converse(609061052467143int * 609061052467143int, m, 149526032257400int, 1848552867459049int);
    assert(mod_pow(6, 901656, 2480874801745591) == 1848552867459049);
    lemma_fundamental_div_mod_converse(1848552867459049int * 1848552867459049int, m, 1377396272228933int, 2132472916599998int);
    assert(mod_pow(6, 1803312, 2480874801745591) == 2132472916599998);
    lemma_fundamental_div_mod_converse(2132472916599998int * 2132472916599998int, m, 1832998882826668int, 2263629647379216int);
    lemma_fundamental_div_mod_converse(2263629647379216int * 6, m, 5int, 1177403875547341int);
    assert(mod_pow(6, 3606625, 2480874801745591) == 1177403875547341);
    lemma_fundamental_div_mod_converse(1177403875547341int * 1177403875547341int, m, 558786717160610int, 487969225799771int);
    lemma_fundamental_div_mod_converse(487969225799771int * 6, m, 1int, 446940553053035int);
    assert(mod_pow(6, 7213251, 2480874801745591) == 446940553053035);
    lemma_fundamental_div_mod_converse(446940553053035int * 446940553053035int, m, 80518314677871int, 466471863194464int);
    lemma_fundamental_div_mod_converse(466471863194464int * 6, m, 1int, 317956377421193int);
    assert(mod_pow(6, 14426503, 2480874801745591) == 317956377421193);
    lemma_fundamental_div_mod_converse(317956377421193int * 317956377421193int, m, 40750245788975int, 672145902884024int);
    lemma_fundamental_div_mod_converse(672145902884024int * 6, m, 1int, 1552000615558553int);
    assert(mod_pow(6, 28853007, 2480874801745591) == 1552000615558553);
    lemma_fundamental_div_mod_converse(1552000615558553int * 1552000615558553int, m, 970909902022994int, 1002398751334355int);
    assert(mod_pow(6, 57706014, 2480874801745591) == 1002398751334355);
    lemma_fundamental_div_mod_converse(1002398751334355int * 1002398751334355int, m, 405019735768074int, 1833178675204291int);
    assert(mod_pow(6, 115412028, 2480874801745591) == 1833178675204291);
    lemma_fundamental_div_mod_converse(1833178675204291int * 1833178675204291int, m, 1354580268564627int, 1013146989003124int);
    assert(mod_pow(6, 230824056, 2480874801745591) == 1013146989003124);
    lemma_fundamental_div_mod_converse(1013146989003124int * 1013146989003124int, m, 413751963865268int, 582585344725988int);
    lemma_fundamental_div_mod_converse(582585344725988int * 6, m, 1int, 1014637266610337int);
    assert(mod_pow(6, 461648113, 2480874801745591) == 1014637266610337);
    lemma_fundamental_div_mod_converse(1014637266610337int * 1014637266610337int, m, 414970067038501int, 311443191254478int);
    assert(mod_pow(6, 923296226, 2480874801745591) == 311443191254478);
    lemma_fundamental_div_mod_converse(311443191254478int * 311443191254478int, m, 39097846175278int, 940186005353186int);
    lemma_fundamental_div_mod_converse(940186005353186int * 6, m, 2int, 679366428627934int);
    assert(mod_pow(6, 1846592453, 2480874801745591) == 679366428627934);
    lemma_fundamental_div_mod_converse(679366428627934int * 679366428627934int, m, 186038708612754int, 1888988559240742int);
    assert(mod_pow(6, 3693184906, 2480874801745591) == 1888988559240742);
    lemma_fundamental_div_mod_converse(1888988559240742int * 1888988559240742int, m, 1438314329458183int, 1841237873589411int);
    assert(mod_pow(6, 7386369812, 2480874801745591) == 1841237873589411);
    lemma_fundamental_div_mod_converse(1841237873589411int * 1841237873589411int, m, 1366516724163055int, 2305710499986416int);
    lemma_fundamental_div_mod_converse(2305710499986416int * 6, m, 5int, 1429888991190541int);
    assert(mod_pow(6, 14772739625, 2480874801745591) == 1429888991190541);
    lemma_fundamental_div_mod_converse(1429888991190541int * 1429888991190541int, m, 824137729840012int, 1831037811485589int);
    assert(mod_pow(6, 29545479250, 2480874801745591) == 1831037811485589);
    lemma_fundamental_div_mod_converse(1831037811485589int * 1831037811485589int, m, 1351418243569128int, 124062676962273int);
    lemma_fundamental_div_mod_converse(124062676962273int * 6, m, 0int, 744376061773638int);
    assert(mod_pow(6, 59090958501, 2480874801745591) == 744376061773638);
    lemma_fundamental_div_mod_converse(744376061773638int * 744376061773638int, m, 223346910110803int, 2209126725035471int);
    lemma_fundamental_div_mod_converse(2209126725035471int * 6, m, 5int, 850386341484871int);
    assert(mod_pow(6, 118181917003, 2480874801745591) == 850386341484871);
    lemma_fundamental_div_mod_converse(850386341484871int * 850386341484871int, m, 291492714293843int, 1679835818190428int);
    lemma_fundamental_div_mod_converse(1679835818190428int * 6, m, 4int, 155515702160204int);
    assert(mod_pow(6, 236363834007, 2480874801745591) == 155515702160204);
    lemma_fundamental_div_mod_converse(155515702160204int * 155515702160204int, m, 9748631249494int, 1978749445840662int);
    lemma_fundamental_div_mod_converse(1978749445840662int * 6, m, 4int, 1948997468061608int);
    assert(mod_pow(6, 472727668015, 2480874801745591) == 1948997468061608);
    lemma_fundamental_div_mod_converse(1948997468061608int * 1948997468061608int, m, 1531149870133630int, 1963540450220334int);
    lemma_fundamental_div_mod_converse(1963540450220334int * 6, m, 4int, 1857743494339640int);
    assert(mod_pow(6, 945455336031, 2480874801745591) == 1857743494339640);
    lemma_fundamental_div_mod_converse(1857743494339640int * 1857743494339640int, m, 1391126584998532int, 1914291902857188int);
    assert(mod_pow(6, 1890910672062, 2480874801745591) == 1914291902857188);
    lemma_fundamental_div_mod_converse(1914291902857188int * 1914291902857188int, m, 1477105368947345int, 1123025758361449int);
    assert(mod_pow(6, 3781821344124, 2480874801745591) == 1123025758361449);
    lemma_fundamental_div_mod_converse(1123025758361449int * 1123025758361449int, m, 508363764691355int, 28811982313796int);
    assert(mod_pow(6, 7563642688248, 2480874801745591) == 28811982313796);
    lemma_fundamental_div_mod_converse(28811982313796int * 28811982313796int, m, 334611937799int, 1691353497435407int);
    lemma_fundamental_div_mod_converse(1691353497435407int * 6, m, 4int, 224621777630078int);
    assert(mod_pow(6, 15127285376497, 2480874801745591) == 224621777630078);
    lemma_fundamental_div_mod_converse(224621777630078int * 224621777630078int, m, 20337561149879int, 1311559831852595int);
    lemma_fundamental_div_mod_converse(1311559831852595int * 6, m, 3int, 426734585878797int);
    assert(mod_pow(6, 30254570752995, 2480874801745591) == 426734585878797);
    lemma_fundamental_div_mod_converse(426734585878797int * 426734585878797int, m, 73402497641967int, 2279967835349712int);
    assert(mod_pow(6, 60509141505990, 2480874801745591) == 2279967835349712);
}

pub proof fn lemma_pow_2480874801745591_by_35385462869()
    ensures
        mod_pow(6, 70110, 2480874801745591) == 1811331258890614,
{
    let m = 2480874801745591int;
    lemma_fundamental_div_mod_converse(1, m, 0, 1);
    assert(mod_pow(6, 0, 2480874801745591) == 1);
    lemma_fundamental_div_mod_converse(1int * 1int, m, 0int, 1int);
    lemma_fundamental_div_mod_converse(1int * 6, m, 0int, 6int);
    assert(mod_pow(6, 1, 2480874801745591) == 6);
    lemma_fundamental_div_mod_converse(6int * 6int, m, 0int, 36int);
    assert(mod_pow(6, 2, 2480874801745591) == 36);
    lemma_fundamental_div_mod_converse(36int * 36int, m, 0int, 1296int);
    assert(mod_pow(6, 4, 2480874801745591) == 1296);
    lemma_fundamental_div_mod_converse(1296int * 1296int, m, 0int, 1679616int);
    assert(mod_pow(6, 8, 2480874801745591) == 1679616);
    lemma_fundamental_div_mod_converse(1679616int * 1679616int, m, 0int, 2821109907456int);
    lemma_fundamental_div_mod_converse(2821109907456int * 6, m, 0int, 16926659444736int);
    assert(mod_pow(6, 17, 2480874801745591) == 16926659444736);
    lemma_fundamental_div_mod_converse(16926659444736int * 16926659444736int, m, 115488213978int, 1447290512038698int);
    assert(mod_pow(6, 34, 2480874801745591) == 1447290512038698);
    lemma_fundamental_div_mod_converse(1447290512038698int * 1447290512038698int, m, 844319038092289int, 1072028492687405int);
    assert(mod_pow(6, 68, 2480874801745591) == 1072028492687405);
    lemma_fundamental_div_mod_converse(1072028492687405int * 1072028492687405int, m, 463241872715623int, 2044723108565832int);
    assert(mod_pow(6, 136, 2480874801745591) == 2044723108565832);
    lemma_fundamental_div_mod_converse(2044723108565832int * 2044723108565832int, m, 1685249327278169int, 1074917851549345int);
    lemma_fundamental_div_mod_converse(1074917851549345int * 6, m, 2int, 1487757505804888int);
    assert(mod_pow(6, 273, 2480874801745591) == 1487757505804888);
    lemma_fundamental_div_mod_converse(1487757505804888int * 1487757505804888int, m, 892194315699194int, 208369852938890int);
    lemma_fundamental_div_mod_converse(208369852938890int * 6, m, 0int, 1250219117633340int);
    assert(mod_pow(6, 547, 2480874801745591) == 1250219117633340);
    lemma_fundamental_div_mod_converse(1250219117633340int * 1250219117633340int, m, 630038985037091int, 731385998839819int);
    lemma_fundamental_div_mod_converse(731385998839819int * 6, m, 1int, 1907441191293323int);
    assert(mod_pow(6, 1095, 2480874801745591) == 1907441191293323);
    lemma_fundamental_div_mod_converse(1907441191293323int * 1907441191293323int, m, 1466551998384800int, 233568902965529int);
    assert(mod_pow(6, 2190, 2480874801745591) == 233568902965529);
    lemma_fundamental_div_mod_converse(233568902965529int * 233568902965529int, m, 21989998203107int, 1720733602498604int);
    lemma_fundamental_div_mod_converse(1720733602498604int * 6, m, 4int, 400902408009260int);
    assert(mod_pow(6, 4381, 2480874801745591) == 400902408009260);
    lemma_fundamental_div_mod_converse(400902408009260int * 400902408009260int, m, 64784704425445int, 600327528784605int);
    lemma_fundamental_div_mod_converse(600327528784605int * 6, m, 1int, 1121090370962039int);
    assert(mod_pow(6, 8763, 2480874801745591) == 1121090370962039);
    lemma_fundamental_div_mod_converse(1121090370962039int * 1121090370962039int, m, 506613078168822int, 2342634986873719int);
    lemma_fundamental_div_mod_converse(2342634986873719int * 6, m, 5int, 1651435912514359int);
    assert(mod_pow(6, 17527, 2480874801745591) == 1651435912514359);
    lemma_fundamental_div_mod_converse(1651435912514359int * 1651435912514359int, m, 1099306007390294int, 770847750487127int);
    lemma_fundamental_div_mod_converse(770847750487127int * 6, m, 1int, 2144211701177171int);
    assert(mod_pow(6, 35055, 2480874801745591) == 2144211701177171);
    lemma_fundamental_div_mod_converse(2144211701177171int * 2144211701177171int, m, 1853234921903397int, 1811331258890614int);
    assert(mod_pow(6, 70110, 2480874801745591) == 1811331258890614);
}

/// A Lucas–Pratt witness for 2480874801745591: generator 6, and n - 1 = 2 * 3^2 * 5 * 19 * 41 * 35385462869.
pub proof fn lemma_witness_2480874801745591()
    ensures
        pratt_witness(2480874801745591, 6, seq![2nat, 3nat, 3nat, 5nat, 19nat, 41nat, 35385462869nat]),
{
    lemma_prime_3();
    lemma_prime_5();
    lemma_prime_19();
    lemma_prime_41();
    lemma_prime_35385462869();
    lemma_pow_2480874801745591_full();
    lemma_pow_2480874801745591_by_2();
    lemma_pow_2480874801745591_by_3();
    lemma_pow_2480874801745591_by_5();
    lemma_pow_2480874801745591_by_19();
    lemma_pow_2480874801745591_by_41();
    lemma_pow_2480874801745591_by_35385462869();
    let fs = seq![2nat, 3nat, 3nat, 5nat, 19nat, 41nat, 35385462869nat];
    assert(product(fs) == 2480874801745590nat) by {
        assert(product(Seq::<nat>::empty()) == 1);
        assert(seq![35385462869nat].len() == 1 && seq![35385462869nat][0] == 35385462869nat);
        assert(seq![35385462869nat].drop_first() =~= Seq::<nat>::empty());
        assert(product(seq![35385462869nat].drop_first()) == 1nat);
        assert(product(seq![35385462869nat]) == seq![35385462869nat][0] * product(seq![35385462869nat].drop_first()));
        assert(product(seq![35385462869nat]) == 35385462869nat);
        assert(seq![41nat, 35385462869nat].len() == 2 && seq![41nat, 35385462869nat][0] == 41nat);
        assert(seq![41nat, 35385462869nat].drop_first() =~= seq![35385462869nat]);
        assert(product(seq![41nat, 35385462869nat].drop_first()) == 35385462869nat);
        assert(product(seq![41nat, 35385462869nat]) == seq![41nat, 35385462869nat][0] * product(seq![41nat, 35385462869nat].drop_first()));
        assert(product(seq![41nat, 35385462869nat]) == 1450803977629nat);
        assert(seq![19nat, 41nat, 35385462869nat].len() == 3 && seq![19nat, 41nat, 35385462869nat][0] == 19nat);
        assert(seq![19nat, 41nat, 35385462869nat].drop_first() =~= seq![41nat, 35385462869nat]);
        assert(product(seq![19nat, 41nat, 35385462869nat].drop_first()) == 1450803977629nat);
        assert(product(seq![19nat, 41nat, 35385462869nat]) == seq![19nat, 41nat, 35385462869nat][0] * product(seq![19nat, 41nat, 35385462869nat].drop_first()));
        assert(product(seq![19nat, 41nat, 35385462869nat]) == 27565275574951nat);
        assert(seq![5nat, 19nat, 41nat, 35385462869nat].len() == 4 && seq![5nat, 19nat, 41nat, 35385462869nat][0] == 5nat);
        assert(seq![5nat, 19nat, 41nat, 35385462869nat].drop_first() =~= seq![19nat, 41nat, 35385462869nat]);
        assert(product(seq![5nat, 19nat, 41nat, 35385462869nat].drop_first()) == 27565275574951nat);
        assert(product(seq![5nat, 19nat, 41nat, 35385462869nat]) == seq![5nat, 19nat, 41nat, 35385462869nat][0] * product(seq![5nat, 19nat, 41nat, 35385462869nat].drop_first()));
        assert(product(seq![5nat, 19nat, 41nat, 35385462869nat]) == 137826377874755nat);
        assert(seq![3nat, 5nat, 19nat, 41nat, 35385462869nat].len() == 5 && seq![3nat, 5nat, 19nat, 41nat, 35385462869nat][0] == 3nat);
        assert(seq![3nat, 5nat, 19nat, 41nat, 35385462869nat].drop_first() =~= seq![5nat, 19nat, 41nat, 35385462869nat]);
        assert(product(seq![3nat, 5nat, 19nat, 41nat, 35385462869nat].drop_first()) == 137826377874755nat);
        assert(product(seq![3nat, 5nat, 19nat, 41nat, 35385462869nat]) == seq![3nat, 5nat, 19nat, 41nat, 35385462869nat][0] * product(seq![3nat, 5nat, 19nat, 41nat, 35385462869nat].drop_first()));
        assert(product(seq![3nat, 5nat, 19nat, 41nat, 35385462869nat]) == 413479133624265nat);
        assert(seq![3nat, 3nat, 5nat, 19nat, 41nat, 35385462869nat].len() == 6 && seq![3nat, 3nat, 5nat, 19nat, 41nat, 35385462869nat][0] == 3nat);
        assert(seq![3nat, 3nat, 5nat, 19nat, 41nat, 35385462869nat].drop_first() =~= seq![3nat, 5nat, 19nat, 41nat, 35385462869nat]);
        assert(product(seq![3nat, 3nat, 5nat, 19nat, 41nat, 35385462869nat].drop_first()) == 413479133624265nat);
        assert(product(seq![3nat, 3nat, 5nat, 19nat, 41nat, 35385462869nat]) == seq![3nat, 3nat, 5nat, 19nat, 41nat, 35385462869nat][0] * product(seq![3nat, 3nat, 5nat, 19nat, 41nat, 35385462869nat].drop_first()));
        assert(product(seq![3nat, 3nat, 5nat, 19nat, 41nat, 35385462869nat]) == 1240437400872795nat);
        assert(seq![2nat, 3nat, 3nat, 5nat, 19nat, 41nat, 35385462869nat].len() == 7 && seq![2nat, 3nat, 3nat, 5nat, 19nat, 41nat, 35385462869nat][0] == 2nat);
        assert(seq![2nat, 3nat, 3nat, 5nat, 19nat, 41nat, 35385462869nat].drop_first() =~= seq![3nat, 3nat, 5nat, 19nat, 41nat, 35385462869nat]);
        assert(product(seq![2nat, 3nat, 3nat, 5nat, 19nat, 41nat, 35385462869nat].drop_first()) == 1240437400872795nat);
        assert(product(seq![2nat, 3nat, 3nat, 5nat, 19nat, 41nat, 35385462869nat]) == seq![2nat, 3nat, 3nat, 5nat, 19nat, 41nat, 35385462869nat][0] * product(seq![2nat, 3nat, 3nat, 5nat, 19nat, 41nat, 35385462869nat].drop_first()));
        assert(product(seq![2nat, 3nat, 3nat, 5nat, 19nat, 41nat, 35385462869nat]) == 2480874801745590nat);
    }
    assert forall|i: int| 0 <= i < fs.len() implies mod_pow(6, ((2480874801745590nat) / fs[i]) as nat, 2480874801745591) != 1 && is_prime(#[trigger] fs[i]) by {
        if i == 0 {
            assert(fs[i] == 2);
            lemma_fundamental_div_mod_converse(2480874801745590int, 2int, 1240437400872795int, 0int);
        } else if i == 1 {
            assert(fs[i] == 3);
            lemma_fundamental_div_mod_converse(2480874801745590int, 3int, 826958267248530int, 0int);
        } else if i == 2 {
            assert(fs[i] == 3);
            lemma_fundamental_div_mod_converse(2480874801745590int, 3int, 826958267248530int, 0int);
        } else if i == 3 {
            assert(fs[i] == 5);
            lemma_fundamental_div_mod_converse(2480874801745590int, 5int, 496174960349118int, 0int);
        } else if i == 4 {
            assert(fs[i] == 19);
            lemma_fundamental_div_mod_converse(2480874801745590int, 19int, 130572357986610int, 0int);
        } else if i == 5 {
            assert(fs[i] == 41);
            lemma_fundamental_div_mod_converse(2480874801745590int, 41int, 60509141505990int, 0int);
        } else if i == 6 {
            assert(fs[i] == 35385462869);
            lemma_fundamental_div_mod_converse(2480874801745590int, 35385462869int, 70110int, 0int);
        }
    }
}

/// 2480874801745591 is prime.
pub proof fn lemma_prime_2480874801745591()
    ensures
        is_prime(2480874801745591),
{
    lemma_witness_2480874801745591();
    lemma_pratt_prime(2480874801745591, 6, seq![2nat, 3nat, 3nat, 5nat, 19nat, 41nat, 35385462869nat]);
}

#[verifier::rlimit(100)]
pub proof fn lemma_pow_p134276_41_digits_full()
    ensures
        mod_pow(17, 13427688667394608761327070753331941386768nat, 13427688667394608761327070753331941386769nat) == 1,
{
    let m = 13427688667394608761327070753331941386769int;
    lemma_fundamental_div_mod_converse(1, m, 0, 1);
    assert(mod_pow(17, 0, 13427688667394608761327070753331941386769nat) == 1);
    lemma_fundamental_div_mod_converse(1int * 1int, m, 0int, 1int);
    lemma_fundamental_div_mod_converse(1int * 17, m, 0int, 17int);
    assert(mod_pow(17, 1, 13427688667394608761327070753331941386769nat) == 17);
    lemma_fundamental_div_mod_converse(17int * 17int, m, 0int, 289int);
    assert(mod_pow(17, 2, 13427688667394608761327070753331941386769nat) == 289);
    lemma_fundamental_div_mod_converse(289int * 289int, m, 0int, 83521int);
    assert(mod_pow(17, 4, 13427688667394608761327070753331941386769nat) == 83521);
    lemma_fundamental_div_mod_converse(83521int * 83521int, m, 0int, 6975757441int);
    lemma_fundamental_div_mod_converse(6975757441int * 17, m, 0int, 118587876497int);
    assert(mod_pow(17, 9, 13427688667394608761327070753331941386769nat) == 118587876497);
    lemma_fundamental_div_mod_converse(118587876497int * 118587876497int, m, 0int, 14063084452067724991009int);
    lemma_fundamental_div_mod_converse(14063084452067724991009int * 17, m, 0int, 239072435685151324847153int);
    assert(mod_pow(17, 19, 13427688667394608761327070753331941386769nat) == 239072435685151324847153nat);
    lemma_fundamental_div_mod_converse(239072435685151324847153int * 239072435685151324847153int, m, 4256550int, 1307232294695775335979823900768960618459int);
    lemma_fundamental_div_mod_converse(1307232294695775335979823900768960618459int * 17, m, 1int, 8795260342433571950329935559740389127034int);
    assert(mod_pow(17, 39, 13427688667394608761327070753331941386769nat) == 8795260342433571950329935559740389127034nat);
    lemma_fundamental_div_mod_converse(8795260342433571950329935559740389127034int * 8795260342433571950329935559740389127034int, m, 5760976919209008747145241330867577928316int, 4544163296514965155292538068779476786152int);
    assert(mod_pow(17, 78, 13427688667394608761327070753331941386769nat) == 4544163296514965155292538068779476786152nat);
    lemma_fundamental_div_mod_converse(4544163296514965155292538068779476786152int * 4544163296514965155292538068779476786152int, m, 1537823863576395233167695011726170611456int, 3230413823946153236081393197253420741440int);
    lemma_fundamental_div_mod_converse(3230413823946153236081393197253420741440int * 17, m, 4int, 1206280337506169968075401339980387057404int);
    assert(mod_pow(17, 157, 13427688667394608761327070753331941386769nat) == 1206280337506169968075401339980387057404nat);
    lemma_fundamental_div_mod_converse(1206280337506169968075401339980387057404int * 1206280337506169968075401339980387057404int, m, 108366546819582806148255566075354716970int, 381570073806253633465576322666693449286int);
    lemma_fundamental_div_mod_converse(381570073806253633465576322666693449286int * 17, m, 0int, 6486691254706311768914797485333788637862int);
    assert(mod_pow(17, 315, 13427688667394608761327070753331941386769nat) == 6486691254706311768914797485333788637862nat);
    lemma_fundamental_div_mod_converse(6486691254706311768914797485333788637862int * 6486691254706311768914797485333788637862int, m, 3133611783542165633988865644193387226473int, 12185952245608847244002476361911091195307int);
    lemma_fundamental_div_mod_converse(12185952245608847244002476361911091195307int * 17, m, 15int, 5745858164431271728136036852509429518684int);
    assert(mod_pow(17, 631, 13427688667394608761327070753331941386769nat) == 5745858164431271728136036852509429518684nat);
    lemma_fundamental_div_mod_converse(5745858164431271728136036852509429518684int * 5745858164431271728136036852509429518684int, m, 2458716973825058376051244268642271762771int, 11901697156844741686584313770835978914957int);
    assert(mod_pow(17, 1262, 13427688667394608761327070753331941386769nat) == 11901697156844741686584313770835978914957nat);
    lemma_fundamental_div_mod_converse(11901697156844741686584313770835978914957int * 11901697156844741686584313770835978914957int, m, 10549127159702818107697480210678793799842int, 11619917295103158913221544266930545221351int);
    lemma_fundamental_div_mod_converse(11619917295103158913221544266930545221351int * 17, m, 14int, 9550952673229178866187261991172089348201int);
    assert(mod_pow(17, 2525, 13427688667394608761327070753331941386769nat) == 9550952673229178866187261991172089348201nat);
    lemma_fundamental_div_mod_converse(9550952673229178866187261991172089348201int * 9550952673229178866187261991172089348201int, m, 6793477211589480793753362784381971117931int, 6396814083797467247787200615523639881462int);
    assert(mod_pow(17, 5050, 13427688667394608761327070753331941386769nat) == 6396814083797467247787200615523639881462nat);
    lemma_fundamental_div_mod_converse(6396814083797467247787200615523639881462int * 6396814083797467247787200615523639881462int, m, 3047377060657546495465389747374445728188int, 12330185070485813822395146426084657712872int);
    lemma_fundamental_div_mod_converse(12330185070485813822395146426084657712872int * 17, m, 15int, 8197816187339703560811427943460060317289int);
    assert(mod_pow(17, 10101, 13427688667394608761327070753331941386769nat) == 8197816187339703560811427943460060317289nat);
    lemma_fundamental_div_mod_converse(8197816187339703560811427943460060317289int * 8197816187339703560811427943460060317289int, m, 5004896367950165381354619257489727835924int, 5789628695033385399280230197061495819965int);
    lemma_fundamental_div_mod_converse(5789628695033385399280230197061495819965int * 17, m, 7int, 4429867143805290458474418076721839232022int);
    assert(mod_pow(17, 20203, 13427688667394608761327070753331941386769nat) == 4429867143805290458474418076721839232022nat);
    lemma_fundamental_div_mod_converse(4429867143805290458474418076721839232022int * 4429867143805290458474418076721839232022int, m, 1461437139171715503666959218718525267923int, 6556223769382652328543119706182857897697int);
    lemma_fundamental_div_mod_converse(6556223769382652328543119706182857897697int * 17, m, 8int, 4034294740348219494616468978453053166697int);
    assert(mod_pow(17, 40407, 13427688667394608761327070753331941386769nat) == 4034294740348219494616468978453053166697nat);
    lemma_fundamental_div_mod_converse(4034294740348219494616468978453053166697int * 4034294740348219494616468978453053166697int, m, 1212087534582321381317821864487072328812int, 6935082042188846433631206051518035601381int);
    assert(mod_pow(17, 80814, 13427688667394608761327070753331941386769nat) == 6935082042188846433631206051518035601381nat);
    lemma_fundamental_div_mod_converse(6935082042188846433631206051518035601381int * 6935082042188846433631206051518035601381int, m, 3581805039066505572518396015018169095360int, 5911240179297469015204790835037725815321int);
    lemma_fundamental_div_mod_converse(5911240179297469015204790835037725815321int * 17, m, 7int, 6497262376294711929191948922317749153074int);
    assert(mod_pow(17, 161629, 13427688667394608761327070753331941386769nat) == 6497262376294711929191948922317749153074nat);
    lemma_fundamental_div_mod_converse(6497262376294711929191948922317749153074int * 6497262376294711929191948922317749153074int, m, 3143833568983523600801270682313595369225int, 9170273744694588751647632107361198865451int);
    lemma_fundamental_div_mod_converse(9170273744694588751647632107361198865451int * 17, m, 11int, 8190078318467312403411967538489025458208int);
    assert(mod_pow(17, 323259, 13427688667394608761327070753331941386769nat) == 8190078318467312403411967538489025458208nat);
    lemma_fundamental_div_mod_converse(8190078318467312403411967538489025458208int * 8190078318467312403411967538489025458208int, m, 4995452644467923014717489125341146083220int, 7325914966878121196506246843684873655084int);
    lemma_fundamental_div_mod_converse(7325914966878121196506246843684873655084int * 17, m, 9int, 3691356430376581488662559562655379655507int);
    assert(mod_pow(17, 646519, 13427688667394608761327070753331941386769nat) == 3691356430376581488662559562655379655507nat);
    lemma_fundamental_div_mod_converse(3691356430376581488662559562655379655507int * 3691356430376581488662559562655379655507int, m, 1014777199084883871010218143017819507374int, 11637942033557718582937894142208013892443int);
    lemma_fundamental_div_mod_converse(11637942033557718582937894142208013892443int * 17, m, 14int, 9857373226956693251365209870889056756765int);
    assert(mod_pow(17, 1293039, 13427688667394608761327070753331941386769nat) == 9857373226956693251365209870889056756765nat);
    lemma_fundamental_div_mod_converse(9857373226956693251365209870889056756765int * 9857373226956693251365209870889056756765int, m, 7236376218005969240129379371622946735034int, 2222879534200284765671851838093616900079int);
    assert(mod_pow(17, 2586078, 13427688667394608761327070753331941386769nat) == 2222879534200284765671851838093616900079nat);
    lemma_fundamental_div_mod_converse(2222879534200284765671851838093616900079int * 2222879534200284765671851838093616900079int, m, 367985402846342647125388999803630358049int, 317563121533072997500143755948408952560int);
    lemma_fundamental_div_mod_converse(317563121533072997500143755948408952560int * 17, m, 0int, 5398573066062240957502443851122952193520int);
    assert(mod_pow(17, 5172157, 13427688667394608761327070753331941386769nat) == 5398573066062240957502443851122952193520nat);
    lemma_fundamental_div_mod_converse(5398573066062240957502443851122952193520int * 5398573066062240957502443851122952193520int, m, 2170484576424695030454931324720512729932int, 12559993017199005237959207221033474920692int);
    lemma_fundamental_div_mod_converse(12559993017199005237959207221033474920692int * 17, m, 15int, 12104551281463957625400461457589952850229int);
    assert(mod_pow(17, 10344315, 13427688667394608761327070753331941386769nat) == 12104551281463957625400461457589952850229nat);
    lemma_fundamental_div_mod_converse(12104551281463957625400461457589952850229int * 12104551281463957625400461457589952850229int, m, 10911793187562802576360603511353860564865int, 13099626728130944277088406871171128081256int);
    assert(mod_pow(17, 20688630, 13427688667394608761327070753331941386769nat) == 13099626728130944277088406871171128081256nat);
    lemma_fundamental_div_mod_converse(13099626728130944277088406871171128081256int * 13099626728130944277088406871171128081256int, m, 12779579916314699142928211428674545175893int, 1386828384137459029534025461098690577819int);
    assert(mod_pow(17, 41377260, 13427688667394608761327070753331941386769nat) == 1386828384137459029534025461098690577819nat);
    lemma_fundamental_div_mod_converse(1386828384137459029534025461098690577819int * 1386828384137459029534025461098690577819int, m, 143233360162683498176622257740334536037int, 538949755624648682909913209142109302308int);
    assert(mod_pow(17, 82754520, 13427688667394608761327070753331941386769nat) == 538949755624648682909913209142109302308nat);
    lemma_fundamental_div_mod_converse(538949755624648682909913209142109302308int * 538949755624648682909913209142109302308int, m, 21631931323607920600309046148514253777int, 5495618462768584856251902737765958050351int);
    lemma_fundamental_div_mod_converse(5495618462768584856251902737765958050351int * 17, m, 6int, 12859381862698289988319922022029638535353int);
    assert(mod_pow(17, 165509041, 13427688667394608761327070753331941386769nat) == 12859381862698289988319922022029638535353nat);
    lemma_fundamental_div_mod_converse(12859381862698289988319922022029638535353int * 12859381862698289988319922022029638535353int, m, 12315127792040137337905770252467971016063int, 9426851716612171447152881043220836164162int);
    assert(mod_pow(17, 331018082, 13427688667394608761327070753331941386769nat) == 9426851716612171447152881043220836164162nat);
    lemma_fundamental_div_mod_converse(9426851716612171447152881043220836164162int * 9426851716612171447152881043220836164162int, m, 6618081152177661728676612122055898216644int, 9541127399811941270119215033062455979008int);
    assert(mod_pow(17, 662036164, 13427688667394608761327070753331941386769nat) == 9541127399811941270119215033062455979008nat);
    lemma_fundamental_div_mod_converse(9541127399811941270119215033062455979008int * 9541127399811941270119215033062455979008int, m, 6779507204429803336513257631080078791639int, 2533992041225758346681820288412274239673int);
    lemma_fundamental_div_mod_converse(2533992041225758346681820288412274239673int * 17, m, 3int, 2794798698654065609609732643012837914134int);
    assert(mod_pow(17, 1324072329, 13427688667394608761327070753331941386769nat) == 2794798698654065609609732643012837914134nat);
    lemma_fundamental_div_mod_converse(2794798698654065609609732643012837914134int * 2794798698654065609609732643012837914134int, m, 581700988120542810491909022887439645253int, 9497532670537650183834502417241729112399int);
    lemma_fundamental_div_mod_converse(9497532670537650183834502417241729112399int * 17, m, 12int, 325791390404747989261692053126098269555int);
    assert(mod_pow(17, 2648144659, 13427688667394608761327070753331941386769nat) == 325791390404747989261692053126098269555nat);
    lemma_fundamental_div_mod_converse(325791390404747989261692053126098269555int * 325791390404747989261692053126098269555int, m, 7904564418416278569231374716655550359int, 7049353532150323490672988259898064097954int);
    assert(mod_pow(17, 5296289318, 13427688667394608761327070753331941386769nat) == 7049353532150323490672988259898064097954nat);
    lemma_fundamental_div_mod_converse(7049353532150323490672988259898064097954int * 7049353532150323490672988259898064097954int, m, 3700814522301723250798117180664646512449int, 4331660678846804232949387635431224598835int);
    lemma_fundamental_div_mod_converse(4331660678846804232949387635431224598835int * 17, m, 5int, 6499788203422628153504236035671111246350int);
    assert(mod_pow(17, 10592578637, 13427688667394608761327070753331941386769nat) == 6499788203422628153504236035671111246350nat);
    lemma_fundamental_div_mod_converse(6499788203422628153504236035671111246350int * 6499788203422628153504236035671111246350int, m, 3146278390557087762384576398476993176610int, 2074692932775220690479407562176454049410int);
    assert(mod_pow(17, 21185157274, 13427688667394608761327070753331941386769nat) == 2074692932775220690479407562176454049410nat);
    lemma_fundamental_div_mod_converse(2074692932775220690479407562176454049410int * 2074692932775220690479407562176454049410int, m, 320557831800148890822968318645821688662int, 6931374686873551931829074425225077235022int);
    assert(mod_pow(17, 42370314548, 13427688667394608761327070753331941386769nat) == 6931374686873551931829074425225077235022nat);
    lemma_fundamental_div_mod_converse(6931374686873551931829074425225077235022int * 6931374686873551931829074425225077235022int, m, 3577976540854179546810622826452879409225int, 12542344844855138775777681668876671796459int);
    lemma_fundamental_div_mod_converse(12542344844855138775777681668876671796459int * 17, m, 15int, 11804532351618227768314527070924299738268int);
    assert(mod_pow(17, 84740629097, 13427688667394608761327070753331941386769nat) == 11804532351618227768314527070924299738268nat);
    lemma_fundamental_div_mod_converse(11804532351618227768314527070924299738268int * 11804532351618227768314527070924299738268int, m, 10377585263707118427607747555913138131936int, 7458673144469487881133530252803376885040int);
    assert(mod_pow(17, 169481258194, 13427688667394608761327070753331941386769nat) == 7458673144469487881133530252803376885040nat);
    lemma_fundamental_div_mod_converse(7458673144469487881133530252803376885040int * 7458673144469487881133530252803376885040int, m, 4143066349990423691184251548947873656133int, 6317119217801306221770037116983113897323int);
    lemma_fundamental_div_mod_converse(6317119217801306221770037116983113897323int * 17, m, 7int, 13397206030859944440801135715389346547108int);
    assert(mod_pow(17, 338962516389, 13427688667394608761327070753331941386769nat) == 13397206030859944440801135715389346547108nat);
    lemma_fundamental_div_mod_converse(13397206030859944440801135715389346547108int * 13397206030859944440801135715389346547108int, m, 13366792593958450103812911431059028825946int, 7209945433675739581917734064060894855190int);
    lemma_fundamental_div_mod_converse(7209945433675739581917734064060894855190int * 17, m, 9int, 1719874365936094040657842309047740057309int);
    assert(mod_pow(17, 677925032779, 13427688667394608761327070753331941386769nat) == 1719874365936094040657842309047740057309nat);
    lemma_fundamental_div_mod_converse(1719874365936094040657842309047740057309int * 1719874365936094040657842309047740057309int, m, 220288681684039946885964027844575750628int, 3652996991970604650551298491939161680549int);
    lemma_fundamental_div_mod_converse(3652996991970604650551298491939161680549int * 17, m, 4int, 8390194193921844014063791349637983022257int);
    assert(mod_pow(17, 1355850065559, 13427688667394608761327070753331941386769nat) == 8390194193921844014063791349637983022257nat);
    lemma_fundamental_div_mod_converse(8390194193921844014063791349637983022257int * 8390194193921844014063791349637983022257int, m, 5242552188646977423385247891799211094842int, 7842148404904591762173296726151494428551int);
    lemma_fundamental_div_mod_converse(7842148404904591762173296726151494428551int * 17, m, 9int, 12467324876826581105002407564587932804446int);
    assert(mod_pow(17, 2711700131119, 13427688667394608761327070753331941386769nat) == 12467324876826581105002407564587932804446nat);
    lemma_fundamental_div_mod_converse(12467324876826581105002407564587932804446int * 12467324876826581105002407564587932804446int, m, 11575647412928737204118606928216399922261int, 7089022167933653461861683174718343402207int);
    lemma_fundamental_div_mod_converse(7089022167933653461861683174718343402207int * 17, m, 8int, 13091867515715238761032047943556306743367int);
    assert(mod_pow(17, 5423400262239, 13427688667394608761327070753331941386769nat) == 13091867515715238761032047943556306743367nat);
    lemma_fundamental_div_mod_converse(13091867515715238761032047943556306743367int * 13091867515715238761032047943556306743367int, m, 12764445117440771800606681436254264827033int, 12987381145477995458012275452683258770312int);
    lemma_fundamental_div_mod_converse(12987381145477995458012275452683258770312int * 17, m, 16int, 5942460794812182604975550642304336907000int);
    assert(mod_pow(17, 10846800524479, 13427688667394608761327070753331941386769nat) == 5942460794812182604975550642304336907000nat);
    lemma_fundamental_div_mod_converse(5942460794812182604975550642304336907000int * 5942460794812182604975550642304336907000int, m, 2629852476668393862429771100093210948563int, 12581679524504487695385715595270501237053int);
    assert(mod_pow(17, 21693601048958, 13427688667394608761327070753331941386769nat) == 12581679524504487695385715595270501237053nat);
    lemma_fundamental_div_mod_converse(12581679524504487695385715595270501237053int * 12581679524504487695385715595270501237053int, m, 11788973037609931319303043274631053744665int, 1717210826781763280336622736332764787424int);
    lemma_fundamental_div_mod_converse(1717210826781763280336622736332764787424int * 17, m, 2int, 2337206720500758243068445010993118612670int);
    assert(mod_pow(17, 43387202097917, 13427688667394608761327070753331941386769nat) == 2337206720500758243068445010993118612670nat);
    lemma_fundamental_div_mod_converse(2337206720500758243068445010993118612670int * 2337206720500758243068445010993118612670int, m, 406811282988572002267937909847796982828int, 6253602080014851783506070548085085126168int);
    assert(mod_pow(17, 86774404195834, 13427688667394608761327070753331941386769nat) == 6253602080014851783506070548085085126168nat);
    lemma_fundamental_div_mod_converse(6253602080014851783506070548085085126168int * 6253602080014851783506070548085085126168int, m, 2912454998314625462945654638574320848435int, 8682420956018642141085413766161915007709int);
    lemma_fundamental_div_mod_converse(8682420956018642141085413766161915007709int * 17, m, 10int, 13324269578370828785181326491433141263363int);
    assert(mod_pow(17, 173548808391669, 13427688667394608761327070753331941386769nat) == 13324269578370828785181326491433141263363nat);
    lemma_fundamental_div_mod_converse(13324269578370828785181326491433141263363int * 13324269578370828785181326491433141263363int, m, 13221647015706829519585715903254865799830int, 11978753876602657899027686061135161620499int);
    assert(mod_pow(17, 347097616783338, 13427688667394608761327070753331941386769nat) == 11978753876602657899027686061135161620499nat);
    lemma_fundamental_div_mod_converse(11978753876602657899027686061135161620499int * 11978753876602657899027686061135161620499int, m, 10686168557411515752590435735410401655723int, 13281777077756885089385538166929371680014int);
    assert(mod_pow(17, 694195233566676, 13427688667394608761327070753331941386769nat) == 13281777077756885089385538166929371680014nat);
    lemma_fundamental_div_mod_converse(13281777077756885089385538166929371680014int * 13281777077756885089385538166929371680014int, m, 13137451032178006388611924649844893743415int, 6392394625952299527222936822418045164061int);
    assert(mod_pow(17, 1388390467133352, 13427688667394608761327070753331941386769nat) == 6392394625952299527222936822418045164061nat);
    lemma_fundamental_div_mod_converse(6392394625952299527222936822418045164061int * 6392394625952299527222936822418045164061int, m, 3043167745847989039439887276758193699411int, 4506742114119033507852521729782727518662int);
    lemma_fundamental_div_mod_converse(4506742114119033507852521729782727518662int * 17, m, 5int, 9476172603050525826857515639646660883409int);
    assert(mod_pow(17, 2776780934266705, 13427688667394608761327070753331941386769nat) == 9476172603050525826857515639646660883409nat);
    lemma_fundamental_div_mod_converse(9476172603050525826857515639646660883409int * 9476172603050525826857515639646660883409int, m, 6687513348507578051266710146949828306613int, 10690259499997427171197991680738138057884int);
    assert(mod_pow(17, 5553561868533410, 13427688667394608761327070753331941386769nat) == 10690259499997427171197991680738138057884nat);
    lemma_fundamental_div_mod_converse(10690259499997427171197991680738138057884int * 10690259499997427171197991680738138057884int, m, 8510894987816205662700743094599940099417int, 11907771015750366101110879870952626143783int);
    assert(mod_pow(17, 11107123737066820, 13427688667394608761327070753331941386769nat) == 11907771015750366101110879870952626143783nat);
    lemma_fundamental_div_mod_converse(11907771015750366101110879870952626143783int * 11907771015750366101110879870952626143783int, m, 10559897095905573227698056861717619850524int, 7401719645649192108222341201969938234133int);
    assert(mod_pow(17, 22214247474133640, 13427688667394608761327070753331941386769nat) == 7401719645649192108222341201969938234133nat);
    lemma_fundamental_div_mod_converse(7401719645649192108222341201969938234133int * 7401719645649192108222341201969938234133int, m, 4080036041185581951849996692488122613492int, 8126005221491113078953940639199256574341int);
    lemma_fundamental_div_mod_converse(8126005221491113078953940639199256574341int * 17, m, 10int, 3865202091402834728946283333067947896107int);
    assert(mod_pow(17, 44428494948267281, 13427688667394608761327070753331941386769nat) == 3865202091402834728946283333067947896107nat);
    lemma_fundamental_div_mod_converse(3865202091402834728946283333067947896107int * 3865202091402834728946283333067947896107int, m, 1112610485500899922595773125371367276511int, 583633075803717901071351173679645872490int);
    assert(mod_pow(17, 88856989896534562, 13427688667394608761327070753331941386769nat) == 583633075803717901071351173679645872490nat);
    lemma_fundamental_div_mod_converse(583633075803717901071351173679645872490int * 583633075803717901071351173679645872490int, m, 25367550261961853999010688254839737375int, 10103253353733129509530237257588079008725int);
    lemma_fundamental_div_mod_converse(10103253353733129509530237257588079008725int * 17, m, 12int, 10623043004727896526089184339014046507097int);
    assert(mod_pow(17, 177713979793069125, 13427688667394608761327070753331941386769nat) == 10623043004727896526089184339014046507097nat);
    lemma_fundamental_div_mod_converse(10623043004727896526089184339014046507097int * 10623043004727896526089184339014046507097int, m, 8404204586178757241888752011013022696212int, 9572498243109409199057410192543388148381int);
    lemma_fundamental_div_mod_converse(9572498243109409199057410192543388148381int * 17, m, 12int, 1600206124124651248051124233254301881249int);
    assert(mod_pow(17, 355427959586138251, 13427688667394608761327070753331941386769nat) == 1600206124124651248051124233254301881249nat);
    lemma_fundamental_div_mod_converse(1600206124124651248051124233254301881249int * 1600206124124651248051124233254301881249int, m, 190699956121553922794461892384872231743int, 13285388382570696447961819080129135791634int);
    lemma_fundamental_div_mod_converse(13285388382570696447961819080129135791634int * 17, m, 16int, 11008583825388099434117792308884246269474int);
    assert(mod_pow(17, 710855919172276503, 13427688667394608761327070753331941386769nat) == 11008583825388099434117792308884246269474nat);
    lemma_fundamental_div_mod_converse(11008583825388099434117792308884246269474int * 11008583825388099434117792308884246269474int, m, 9025299948670236658358035710983753490977int, 1316570225231315081358162357935515553363int);
    assert(mod_pow(17, 1421711838344553006, 13427688667394608761327070753331941386769nat) == 1316570225231315081358162357935515553363nat);
    lemma_fundamental_div_mod_converse(1316570225231315081358162357935515553363int * 1316570225231315081358162357935515553363int, m, 129088274304021466514968749377044695450int, 5402991195883744816091068853511836108719int);
    lemma_fundamental_div_mod_converse(5402991195883744816091068853511836108719int * 17, m, 6int, 11284718325656009305585745989709565527609int);
    assert(mod_pow(17, 2843423676689106013, 13427688667394608761327070753331941386769nat) == 11284718325656009305585745989709565527609nat);
    lemma_fundamental_div_mod_converse(11284718325656009305585745989709565527609int * 11284718325656009305585745989709565527609int, m, 9483751883421158449935353704214628483338int, 11508453910156345596631826283695611101959int);
    assert(mod_pow(17, 5686847353378212026, 13427688667394608761327070753331941386769nat) == 11508453910156345596631826283695611101959nat);
    lemma_fundamental_div_mod_converse(11508453910156345596631826283695611101959int * 11508453910156345596631826283695611101959int, m, 9863537551611349252786312703086855986920int, 8605495383502694491238307848199368576201int);
    assert(mod_pow(17, 11373694706756424052nat, 13427688667394608761327070753331941386769nat) == 8605495383502694491238307848199368576201nat);
    lemma_fundamental_div_mod_converse(8605495383502694491238307848199368576201int * 8605495383502694491238307848199368576201int, m, 5515063137806209213818674077336554550304int, 447145726589458250883349796087013064625int);
    assert(mod_pow(17, 22747389413512848104nat, 13427688667394608761327070753331941386769nat) == 447145726589458250883349796087013064625nat);
    lemma_fundamental_div_mod_converse(447145726589458250883349796087013064625int * 447145726589458250883349796087013064625int, m, 14890075705486923849684732722499328793int, 2323809590397173012553775239214315450808int);
    assert(mod_pow(17, 45494778827025696208nat, 13427688667394608761327070753331941386769nat) == 2323809590397173012553775239214315450808nat);
    lemma_fundamental_div_mod_converse(2323809590397173012553775239214315450808int * 2323809590397173012553775239214315450808int, m, 402160874159563265265475174619124045794int, 9544234102802058930052468648142046153278int);
    assert(mod_pow(17, 90989557654051392416nat, 13427688667394608761327070753331941386769nat) == 9544234102802058930052468648142046153278nat);
    lemma_fundamental_div_mod_converse(9544234102802058930052468648142046153278int * 9544234102802058930052468648142046153278int, m, 6783922897339903552384504660767653897678int, 8816063233346799215084611521213721122902int);
    assert(mod_pow(17, 181979115308102784832nat, 13427688667394608761327070753331941386769nat) == 8816063233346799215084611521213721122902nat);
    lemma_fundamental_div_mod_converse(8816063233346799215084611521213721122902int * 8816063233346799215084611521213721122902int, m, 5788261320289451217879123874918915313518int, 12092628824719900673924040606056456858262int);
    lemma_fundamental_div_mod_converse(12092628824719900673924040606056456858262int * 17, m, 15int, 4159360009319180036802629002980645788919int);
    assert(mod_pow(17, 363958230616205569665nat, 13427688667394608761327070753331941386769nat) == 4159360009319180036802629002980645788919nat);
    lemma_fundamental_div_mod_converse(4159360009319180036802629002980645788919int * 4159360009319180036802629002980645788919int, m, 1288403098675689178587916770199945875438int, 5579404010981784637113028884936447908739int);
    assert(mod_pow(17, 727916461232411139330nat, 13427688667394608761327070753331941386769nat) == 5579404010981784637113028884936447908739nat);
    lemma_fundamental_div_mod_converse(5579404010981784637113028884936447908739int * 5579404010981784637113028884936447908739int, m, 2318325207624863003904749836459681528696int, 7129981658838146373496248254202364346897int);
    lemma_fundamental_div_mod_converse(7129981658838146373496248254202364346897int * 17, m, 9int, 360490193697009497492583541452721416328int);
    assert(mod_pow(17, 1455832922464822278661nat, 13427688667394608761327070753331941386769nat) == 360490193697009497492583541452721416328nat);
    lemma_fundamental_div_mod_converse(360490193697009497492583541452721416328int * 360490193697009497492583541452721416328int, m, 9678000657496805379432749306434549714int, 5638753639332225610193473689031072669518int);
    assert(mod_pow(17, 2911665844929644557322nat, 13427688667394608761327070753331941386769nat) == 5638753639332225610193473689031072669518nat);
    lemma_fundamental_div_mod_converse(5638753639332225610193473689031072669518int * 5638753639332225610193473689031072669518int, m, 2367908833207386836592483237881128115921int, 3132323641530359210014396109001918703075int);
    lemma_fundamental_div_mod_converse(3132323641530359210014396109001918703075int * 17, m, 3int, 12966435903832280286263521593036793791968int);
    assert(mod_pow(17, 5823331689859289114645nat, 13427688667394608761327070753331941386769nat) == 12966435903832280286263521593036793791968nat);
    lemma_fundamental_div_mod_converse(12966435903832280286263521593036793791968int * 12966435903832280286263521593036793791968int, m, 12521027573155151125372806181554431274398int, 681164017024037732852726200608375672962int);
    assert(mod_pow(17, 11646663379718578229290nat, 13427688667394608761327070753331941386769nat) == 681164017024037732852726200608375672962nat);
    lemma_fundamental_div_mod_converse(681164017024037732852726200608375672962int * 681164017024037732852726200608375672962int, m, 34554302648897432600329991946711930687int, 12876313053948953188083910718966190973141int);
    assert(mod_pow(17, 23293326759437156458580nat, 13427688667394608761327070753331941386769nat) == 12876313053948953188083910718966190973141nat);
    lemma_fundamental_div_mod_converse(12876313053948953188083910718966190973141int * 12876313053948953188083910718966190973141int, m, 12347578348751400556815755641164472949703int, 705519979972913665023817756750776726274int);
    assert(mod_pow(17, 46586653518874312917160nat, 13427688667394608761327070753331941386769nat) == 705519979972913665023817756750776726274nat);
    lemma_fundamental_div_mod_converse(705519979972913665023817756750776726274int * 705519979972913665023817756750776726274int, m, 37069554892916741457255232160517653537int, 5931366630146339568528553717727064071123int);
    lemma_fundamental_div_mod_converse(5931366630146339568528553717727064071123int * 17, m, 7int, 6839412040725511335695917928036499501708int);
    assert(mod_pow(17, 93173307037748625834321nat, 13427688667394608761327070753331941386769nat) == 6839412040725511335695917928036499501708nat);
    lemma_fundamental_div_mod_converse(6839412040725511335695917928036499501708int * 6839412040725511335695917928036499501708int, m, 3483664107912133434561546979777273812120int, 7003103635846700278179061367592335076984int);
    lemma_fundamental_div_mod_converse(7003103635846700278179061367592335076984int * 17, m, 8int, 11631252470237034638427477222414165214576int);
    assert(mod_pow(17, 186346614075497251668643nat, 13427688667394608761327070753331941386769nat) == 11631252470237034638427477222414165214576nat);
    lemma_fundamental_div_mod_converse(11631252470237034638427477222414165214576int * 11631252470237034638427477222414165214576int, m, 10075154211379614810359883209164121586390int, 6209646491369950850549140332759286385866int);
    assert(mod_pow(17, 372693228150994503337286nat, 13427688667394608761327070753331941386769nat) == 6209646491369950850549140332759286385866nat);
    lemma_fundamental_div_mod_converse(6209646491369950850549140332759286385866int * 6209646491369950850549140332759286385866int, m, 2871656507900322787958140336616938061489int, 11962036908640206098076089503214991530915int);
    assert(mod_pow(17, 745386456301989006674572nat, 13427688667394608761327070753331941386769nat) == 11962036908640206098076089503214991530915nat);
    lemma_fundamental_div_mod_converse(11962036908640206098076089503214991530915int * 11962036908640206098076089503214991530915int, m, 10656363172250592078802950120208684005827int, 6554492913599408196985230553450944034262int);
    lemma_fundamental_div_mod_converse(6554492913599408196985230553450944034262int * 17, m, 8int, 4004870192033069258132353382010517488302int);
    assert(mod_pow(17, 1490772912603978013349145nat, 13427688667394608761327070753331941386769nat) == 4004870192033069258132353382010517488302nat);
    lemma_fundamental_div_mod_converse(4004870192033069258132353382010517488302int * 4004870192033069258132353382010517488302int, m, 1194471040573139637760943103885249321301int, 3641881235729602945306991079212715576735int);
    assert(mod_pow(17, 2981545825207956026698290nat, 13427688667394608761327070753331941386769nat) == 3641881235729602945306991079212715576735nat);
    lemma_fundamental_div_mod_converse(3641881235729602945306991079212715576735int * 3641881235729602945306991079212715576735int, m, 987757406631388205229557015221734360847int, 12111844806190945483760857155812635826882int);
    lemma_fundamental_div_mod_converse(12111844806190945483760857155812635826882int * 17, m, 15int, 4486031694326941804028510348835688255459int);
    assert(mod_pow(17, 5963091650415912053396581nat, 13427688667394608761327070753331941386769nat) == 4486031694326941804028510348835688255459nat);
    lemma_fundamental_div_mod_converse(4486031694326941804028510348835688255459int * 4486031694326941804028510348835688255459int, m, 1498730039174391309389708593822864594758int, 6426144628770698582775306278025115343779int);
    assert(mod_pow(17, 11926183300831824106793162nat, 13427688667394608761327070753331941386769nat) == 6426144628770698582775306278025115343779nat);
    lemma_fundamental_div_mod_converse(6426144628770698582775306278025115343779int * 6426144628770698582775306278025115343779int, m, 3075386673966658551929003309079727687668int, 4721798602303604532168357783735734336149int);
    lemma_fundamental_div_mod_converse(4721798602303604532168357783735734336149int * 17, m, 5int, 13132132902188233240226728556847776780688int);
    assert(mod_pow(17, 23852366601663648213586325nat, 13427688667394608761327070753331941386769nat) == 13132132902188233240226728556847776780688nat);
    lemma_fundamental_div_mod_converse(13132132902188233240226728556847776780688int * 13132132902188233240226728556847776780688int, m, 12843082590936776933664036055050799557353int, 1113220547937002986472494310703078890887int);
    assert(mod_pow(17, 47704733203327296427172650nat, 13427688667394608761327070753331941386769nat) == 1113220547937002986472494310703078890887nat);
    lemma_fundamental_div_mod_converse(1113220547937002986472494310703078890887int * 1113220547937002986472494310703078890887int, m, 92291385289439863874886542058412847485int, 7239114500142527728558922148597057720804int);
    lemma_fundamental_div_mod_converse(7239114500142527728558922148597057720804int * 17, m, 9int, 2215748495871492533558039746162508772747int);
    assert(mod_pow(17, 95409466406654592854345301nat, 13427688667394608761327070753331941386769nat) == 2215748495871492533558039746162508772747nat);
    lemma_fundamental_div_mod_converse(2215748495871492533558039746162508772747int * 2215748495871492533558039746162508772747int, m, 365628182077100989803110755163706082280int, 516469894152066840285324334192872572689int);
    assert(mod_pow(17, 190818932813309185708690602nat, 13427688667394608761327070753331941386769nat) == 516469894152066840285324334192872572689nat);
    lemma_fundamental_div_mod_converse(516469894152066840285324334192872572689int * 516469894152066840285324334192872572689int, m, 19865008652840864926722390249089978559int, 9162659051916182219699541797538652404850int);
    lemma_fundamental_div_mod_converse(9162659051916182219699541797538652404850int * 17, m, 11int, 8060628541234401360294432271505735627991int);
    assert(mod_pow(17, 381637865626618371417381205nat, 13427688667394608761327070753331941386769nat) == 8060628541234401360294432271505735627991nat);
    lemma_fundamental_div_mod_converse(8060628541234401360294432271505735627991int * 8060628541234401360294432271505735627991int, m, 4838787529944240798893093722078338006195int, 10274170931120174372682415075364329662126int);
    assert(mod_pow(17, 763275731253236742834762410nat, 13427688667394608761327070753331941386769nat) == 10274170931120174372682415075364329662126nat);
    lemma_fundamental_div_mod_converse(10274170931120174372682415075364329662126int * 10274170931120174372682415075364329662126int, m, 7861262718891773044560084886454499237131int, 11720032380642723114187891569128601920137int);
    assert(mod_pow(17, 1526551462506473485669524820nat, 13427688667394608761327070753331941386769nat) == 11720032380642723114187891569128601920137nat);
    lemma_fundamental_div_mod_converse(11720032380642723114187891569128601920137int * 11720032380642723114187891569128601920137int, m, 10229546007933017214078472406158465181704int, 7334855165888653416895452273495999624393int);
    assert(mod_pow(17, 3053102925012946971339049640nat, 13427688667394608761327070753331941386769nat) == 7334855165888653416895452273495999624393nat);
    lemma_fundamental_div_mod_converse(7334855165888653416895452273495999624393int * 7334855165888653416895452273495999624393int, m, 4006653835756706312992474669644804945566int, 1051995163063960448334484490309483002195int);
    assert(mod_pow(17, 6106205850025893942678099280nat, 13427688667394608761327070753331941386769nat) == 1051995163063960448334484490309483002195nat);
    lemma_fundamental_div_mod_converse(1051995163063960448334484490309483002195int * 1051995163063960448334484490309483002195int, m, 82418787813964256978786117531573397865int, 8487635966146137274356600572812890969840int);
    assert(mod_pow(17, 12212411700051787885356198560nat, 13427688667394608761327070753331941386769nat) == 8487635966146137274356600572812890969840nat);
    lemma_fundamental_div_mod_converse(8487635966146137274356600572812890969840int * 8487635966146137274356600572812890969840int, m, 5365030875994794535786070587265375146639int, 457266643250154050055219048039400206209int);
    lemma_fundamental_div_mod_converse(457266643250154050055219048039400206209int * 17, m, 0int, 7773532935252618850938723816669803505553int);
    assert(mod_pow(17, 24424823400103575770712397121nat, 13427688667394608761327070753331941386769nat) == 7773532935252618850938723816669803505553nat);
    lemma_fundamental_div_mod_converse(7773532935252618850938723816669803505553int * 7773532935252618850938723816669803505553int, m, 4500239452392820527153790666151216695191int, 9511742456613690983760410065761988507930int);
    lemma_fundamental_div_mod_converse(9511742456613690983760410065761988507930int * 17, m, 12int, 567357753697441588002122077970507993582int);
    assert(mod_pow(17, 48849646800207151541424794243nat, 13427688667394608761327070753331941386769nat) == 567357753697441588002122077970507993582nat);
    lemma_fundamental_div_mod_converse(567357753697441588002122077970507993582int * 567357753697441588002122077970507993582int, m, 23972466792608801889397467023402287737int, 7233679306378590466231427305572410438971int);
    lemma_fundamental_div_mod_converse(7233679306378590466231427305572410438971int * 17, m, 9int, 2123350201884559073990627414743504981586int);
    assert(mod_pow(17, 97699293600414303082849588487nat, 13427688667394608761327070753331941386769nat) == 2123350201884559073990627414743504981586nat);
    lemma_fundamental_div_mod_converse(2123350201884559073990627414743504981586int * 2123350201884559073990627414743504981586int, m, 335770078642880107674992006758998563442int, 1683583074473538420647838706581893176498int);
    lemma_fundamental_div_mod_converse(1683583074473538420647838706581893176498int * 17, m, 2int, 1765534931260935628359116505228301226928int);
    assert(mod_pow(17, 195398587200828606165699176975nat, 13427688667394608761327070753331941386769nat) == 1765534931260935628359116505228301226928nat);
    lemma_fundamental_div_mod_converse(1765534931260935628359116505228301226928int * 1765534931260935628359116505228301226928int, m, 232140740727151082087052862721451526633int, 543994049772190209487075732659994998407int);
    assert(mod_pow(17, 390797174401657212331398353950nat, 13427688667394608761327070753331941386769nat) == 543994049772190209487075732659994998407nat);
    lemma_fundamental_div_mod_converse(543994049772190209487075732659994998407int * 543994049772190209487075732659994998407int, m, 22038753914970515567641299948621568658int, 4040433742608825654133524345935266251647int);
    lemma_fundamental_div_mod_converse(4040433742608825654133524345935266251647int * 17, m, 5int, 1548930287376992313634560114239819344154int);
    assert(mod_pow(17, 781594348803314424662796707901nat, 13427688667394608761327070753331941386769nat) == 1548930287376992313634560114239819344154nat);
    lemma_fundamental_div_mod_converse(1548930287376992313634560114239819344154int * 1548930287376992313634560114239819344154int, m, 178674461002325940099543401066401899504int, 6729094596098463923960458456001160713140int);
    assert(mod_pow(17, 1563188697606628849325593415802nat, 13427688667394608761327070753331941386769nat) == 6729094596098463923960458456001160713140nat);
    lemma_fundamental_div_mod_converse(6729094596098463923960458456001160713140int * 6729094596098463923960458456001160713140int, m, 3372189749468433494866243712595943826326int, 10180786712294511707437260781916838378906int);
    lemma_fundamental_div_mod_converse(10180786712294511707437260781916838378906int * 17, m, 12int, 11941110100271393890508584252602955800174int);
    assert(mod_pow(17, 3126377395213257698651186831605nat, 13427688667394608761327070753331941386769nat) == 11941110100271393890508584252602955800174nat);
    lemma_fundamental_div_mod_converse(11941110100271393890508584252602955800174int * 11941110100271393890508584252602955800174int, m, 10619110552737475425153405735478306108267int, 663574920415741744291688515237183110953int);
    lemma_fundamental_div_mod_converse(663574920415741744291688515237183110953int * 17, m, 0int, 11280773647067609652958704759032112886201int);
    assert(mod_pow(17, 6252754790426515397302373663211nat, 13427688667394608761327070753331941386769nat) == 11280773647067609652958704759032112886201nat);
    lemma_fundamental_div_mod_converse(11280773647067609652958704759032112886201int * 11280773647067609652958704759032112886201int, m, 9477122774329758990147166854126255837956int, 9180847278806899295264105045361589808237int);
    assert(mod_pow(17, 12505509580853030794604747326422nat, 13427688667394608761327070753331941386769nat) == 9180847278806899295264105045361589808237nat);
    lemma_fundamental_div_mod_converse(9180847278806899295264105045361589808237int * 9180847278806899295264105045361589808237int, m, 6277175383239693881646149758491205987134int, 11842263030804321665644660388374901218123int);
    assert(mod_pow(17, 25011019161706061589209494652844nat, 13427688667394608761327070753331941386769nat) == 11842263030804321665644660388374901218123nat);
    lemma_fundamental_div_mod_converse(11842263030804321665644660388374901218123int * 11842263030804321665644660388374901218123int, m, 10444030775846513920630797748006276350198int, 5560373681315400216925411103537215912867int);
    lemma_fundamental_div_mod_converse(5560373681315400216925411103537215912867int * 17, m, 7int, 532531910599542358442493486809080811356int);
    assert(mod_pow(17, 50022038323412123178418989305689nat, 13427688667394608761327070753331941386769nat) == 532531910599542358442493486809080811356nat);
    lemma_fundamental_div_mod_converse(532531910599542358442493486809080811356int * 532531910599542358442493486809080811356int, m, 21119810179649059684261759616970984863int, 8767046303210434783314930514823331081089int);
    lemma_fundamental_div_mod_converse(8767046303210434783314930514823331081089int * 17, m, 11int, 1335211813236694941756040465345273124054int);
    assert(mod_pow(17, 100044076646824246356837978611379nat, 13427688667394608761327070753331941386769nat) == 1335211813236694941756040465345273124054nat);
    lemma_fundamental_div_mod_converse(1335211813236694941756040465345273124054int * 1335211813236694941756040465345273124054int, m, 132769729055144962823844069735750509937int, 10642831109705614141060880207522178571363int);
    assert(mod_pow(17, 200088153293648492713675957222758nat, 13427688667394608761327070753331941386769nat) == 10642831109705614141060880207522178571363nat);
    lemma_fundamental_div_mod_converse(10642831109705614141060880207522178571363int * 10642831109705614141060880207522178571363int, m, 8435543661714605846162963335734950916162int, 8392207679471789590250933753742348617191int);
    lemma_fundamental_div_mod_converse(8392207679471789590250933753742348617191int * 17, m, 10int, 8390643877074335420995166280300512624557int);
    assert(mod_pow(17, 400176306587296985427351914445517nat, 13427688667394608761327070753331941386769nat) == 8390643877074335420995166280300512624557nat);
    lemma_fundamental_div_mod_converse(8390643877074335420995166280300512624557int * 8390643877074335420995166280300512624557int, m, 5243114166240599837434667244933574414912int, 6024717821609011699046964128189366346921int);
    lemma_fundamental_div_mod_converse(6024717821609011699046964128189366346921int * 17, m, 7int, 8426382295590937554508894905895638190274int);
    assert(mod_pow(17, 800352613174593970854703828891035nat, 13427688667394608761327070753331941386769nat) == 8426382295590937554508894905895638190274nat);
    lemma_fundamental_div_mod_converse(8426382295590937554508894905895638190274int * 8426382295590937554508894905895638190274int, m, 5287873464318664286846682183544562859811int, 5725845002656871024281680538729950954417int);
    assert(mod_pow(17, 1600705226349187941709407657782070nat, 13427688667394608761327070753331941386769nat) == 5725845002656871024281680538729950954417nat);
    lemma_fundamental_div_mod_converse(5725845002656871024281680538729950954417int * 5725845002656871024281680538729950954417int, m, 2441619090712209395768884495812250733238int, 12197134425377653033359798882130410081867int);
    lemma_fundamental_div_mod_converse(12197134425377653033359798882130410081867int * 17, m, 15int, 5935955220500970147210519696237850590204int);
    assert(mod_pow(17, 3201410452698375883418815315564141nat, 13427688667394608761327070753331941386769nat) == 5935955220500970147210519696237850590204nat);
    lemma_fundamental_div_mod_converse(5935955220500970147210519696237850590204int * 5935955220500970147210519696237850590204int, m, 2624097508706203997776668836018894428312int, 4035335447011953410018986672298404957688int);
    lemma_fundamental_div_mod_converse(4035335447011953410018986672298404957688int * 17, m, 5int, 1462259262230164163687419662413177346851int);
    assert(mod_pow(17, 6402820905396751766837630631128283nat, 13427688667394608761327070753331941386769nat) == 1462259262230164163687419662413177346851nat);
    lemma_fundamental_div_mod_converse(1462259262230164163687419662413177346851int * 1462259262230164163687419662413177346851int, m, 159238287611622294466140855545009662355int, 6633935299255011914433674740208405235206int);
    assert(mod_pow(17, 12805641810793503533675261262256566nat, 13427688667394608761327070753331941386769nat) == 6633935299255011914433674740208405235206nat);
    lemma_fundamental_div_mod_converse(6633935299255011914433674740208405235206int * 6633935299255011914433674740208405235206int, m, 3277488676183376596301229453087563639217int, 13229101830424085727956711351036808542563int);
    assert(mod_pow(17, 25611283621587007067350522524513132nat, 13427688667394608761327070753331941386769nat) == 13229101830424085727956711351036808542563nat);
    lemma_fundamental_div_mod_converse(13229101830424085727956711351036808542563int * 13229101830424085727956711351036808542563int, m, 13033451964424130263777777997227255983423int, 4277886193521605800985418530628687078682int);
    lemma_fundamental_div_mod_converse(4277886193521605800985418530628687078682int * 17, m, 5int, 5585621952894254810116761254027973403749int);
    assert(mod_pow(17, 51222567243174014134701045049026265nat, 13427688667394608761327070753331941386769nat) == 5585621952894254810116761254027973403749nat);
    lemma_fundamental_div_mod_converse(5585621952894254810116761254027973403749int * 5585621952894254810116761254027973403749int, m, 2323495381331911935858013788516653348346int, 8964774650682002949906669370486094820927int);
    lemma_fundamental_div_mod_converse(8964774650682002949906669370486094820927int * 17, m, 11int, 4696593720253353773815601011612256701300int);
    assert(mod_pow(17, 102445134486348028269402090098052531nat, 13427688667394608761327070753331941386769nat) == 4696593720253353773815601011612256701300nat);
    lemma_fundamental_div_mod_converse(4696593720253353773815601011612256701300int * 4696593720253353773815601011612256701300int, m, 1642724456866870282718595569832673294702int, 12168863820488168760976891550863321092162int);
    assert(mod_pow(17, 204890268972696056538804180196105062nat, 13427688667394608761327070753331941386769nat) == 12168863820488168760976891550863321092162nat);
    lemma_fundamental_div_mod_converse(12168863820488168760976891550863321092162int * 12168863820488168760976891550863321092162int, m, 11028051837481148599214166826799349817009int, 4610639787788718197743120629274654080323int);
    lemma_fundamental_div_mod_converse(4610639787788718197743120629274654080323int * 17, m, 5int, 11242433055435165554997696931009412431646int);
    assert(mod_pow(17, 409780537945392113077608360392210125nat, 13427688667394608761327070753331941386769nat) == 11242433055435165554997696931009412431646nat);
    lemma_fundamental_div_mod_converse(11242433055435165554997696931009412431646int * 11242433055435165554997696931009412431646int, m, 9412811403115837107500874899105498463659int, 5990395264771641762857167834523212341545int);
    assert(mod_pow(17, 819561075890784226155216720784420250nat, 13427688667394608761327070753331941386769nat) == 5990395264771641762857167834523212341545nat);
    lemma_fundamental_div_mod_converse(5990395264771641762857167834523212341545int * 5990395264771641762857167834523212341545int, m, 2672450659012880401614320728452088704417int, 2843905526652276696351666085222217328352int);
    lemma_fundamental_div_mod_converse(2843905526652276696351666085222217328352int * 17, m, 3int, 8063327950904877553997111188781870421677int);
    assert(mod_pow(17, 1639122151781568452310433441568840501nat, 13427688667394608761327070753331941386769nat) == 8063327950904877553997111188781870421677nat);
    lemma_fundamental_div_mod_converse(8063327950904877553997111188781870421677int * 8063327950904877553997111188781870421677int, m, 4842028978652156322607429441460974989938int, 5667242665405035742085973976524250162007int);
    assert(mod_pow(17, 3278244303563136904620866883137681002nat, 13427688667394608761327070753331941386769nat) == 5667242665405035742085973976524250162007nat);
    lemma_fundamental_div_mod_converse(5667242665405035742085973976524250162007int * 5667242665405035742085973976524250162007int, m, 2391896343752435219351090104951946408486int, 11209219790863186140825637131753956546315int);
    lemma_fundamental_div_mod_converse(11209219790863186140825637131753956546315int * 17, m, 14int, 2569095101149641735456840693170081872589int);
    assert(mod_pow(17, 6556488607126273809241733766275362005nat, 13427688667394608761327070753331941386769nat) == 2569095101149641735456840693170081872589nat);
    lemma_fundamental_div_mod_converse(2569095101149641735456840693170081872589int * 2569095101149641735456840693170081872589int, m, 491540264466955547790056711013572286293int, 4683065924814722145737422815656519305604int);
    assert(mod_pow(17, 13112977214252547618483467532550724010nat, 13427688667394608761327070753331941386769nat) == 4683065924814722145737422815656519305604nat);
    lemma_fundamental_div_mod_converse(4683065924814722145737422815656519305604int * 4683065924814722145737422815656519305604int, m, 1633274869517516810918997533486133629286int, 13241763702835037043838924855516554487882int);
    lemma_fundamental_div_mod_converse(13241763702835037043838924855516554487882int * 17, m, 16int, 10266964269881889564028590490470364105690int);
    assert(mod_pow(17, 26225954428505095236966935065101448021nat, 13427688667394608761327070753331941386769nat) == 10266964269881889564028590490470364105690nat);
    lemma_fundamental_div_mod_converse(10266964269881889564028590490470364105690int * 10266964269881889564028590490470364105690int, m, 7850238259916723525868792333692445813444int, 9658511477900340777447299135563866453664int);
    assert(mod_pow(17, 52451908857010190473933870130202896042nat, 13427688667394608761327070753331941386769nat) == 9658511477900340777447299135563866453664nat);
    lemma_fundamental_div_mod_converse(9658511477900340777447299135563866453664int * 9658511477900340777447299135563866453664int, m, 6947349337585825043583512250151156450585int, 5472232721054092255277196266351137715031int);
    assert(mod_pow(17, 104903817714020380947867740260405792084nat, 13427688667394608761327070753331941386769nat) == 5472232721054092255277196266351137715031nat);
    lemma_fundamental_div_mod_converse(5472232721054092255277196266351137715031int * 5472232721054092255277196266351137715031int, m, 2230118056437288898284536730741524750942int, 11849361731056993778231564561966944244563int);
    assert(mod_pow(17, 209807635428040761895735480520811584168nat, 13427688667394608761327070753331941386769nat) == 11849361731056993778231564561966944244563nat);
    lemma_fundamental_div_mod_converse(11849361731056993778231564561966944244563int * 11849361731056993778231564561966944244563int, m, 10456555622590363093081807444692355112869int, 10770117137348340395724190684167376830708int);
    assert(mod_pow(17, 419615270856081523791470961041623168336nat, 13427688667394608761327070753331941386769nat) == 10770117137348340395724190684167376830708nat);
    lemma_fundamental_div_mod_converse(10770117137348340395724190684167376830708int * 10770117137348340395724190684167376830708int, m, 8638524918578645273136263303878689246507int, 4502086874959455053107577199313222515381int);
    lemma_fundamental_div_mod_converse(4502086874959455053107577199313222515381int * 17, m, 5int, 9397033537337692096193458621665075827632int);
    assert(mod_pow(17, 839230541712163047582941922083246336673nat, 13427688667394608761327070753331941386769nat) == 9397033537337692096193458621665075827632nat);
    lemma_fundamental_div_mod_converse(9397033537337692096193458621665075827632int * 9397033537337692096193458621665075827632int, m, 6576279916012017602994664533189007061457int, 3636941307512651589809390357219585064991int);
    assert(mod_pow(17, 1678461083424326095165883844166492673346nat, 13427688667394608761327070753331941386769nat) == 3636941307512651589809390357219585064991nat);
    lemma_fundamental_div_mod_converse(3636941307512651589809390357219585064991int * 3636941307512651589809390357219585064991int, m, 985079592023215524393714218685568008691int, 6741392840749172352648292846749309420702int);
    assert(mod_pow(17, 3356922166848652190331767688332985346692nat, 13427688667394608761327070753331941386769nat) == 6741392840749172352648292846749309420702nat);
    lemma_fundamental_div_mod_converse(6741392840749172352648292846749309420702int * 6741392840749172352648292846749309420702int, m, 3384527192953023192506716153273743137844int, 13427688667394608761327070753331941386768int);
    assert(mod_pow(17, 6713844333697304380663535376665970693384nat, 13427688667394608761327070753331941386769nat) == 13427688667394608761327070753331941386768nat);
    lemma_fundamental_div_mod_converse(13427688667394608761327070753331941386768int * 13427688667394608761327070753331941386768int, m, 13427688667394608761327070753331941386767int, 1int);
    assert(mod_pow(17, 13427688667394608761327070753331941386768nat, 13427688667394608761327070753331941386769nat) == 1);
}

#[verifier::rlimit(100)]
pub proof fn lemma_pow_p134276_41_digits_by_2()
    ensures
        mod_pow(17, 6713844333697304380663535376665970693384nat, 13427688667394608761327070753331941386769nat) == 13427688667394608761327070753331941386768nat,
{
    let m = 13427688667394608761327070753331941386769int;
    lemma_fundamental_div_mod_converse(1, m, 0, 1);
    assert(mod_pow(17, 0, 13427688667394608761327070753331941386769nat) == 1);
    lemma_fundamental_div_mod_converse(1int * 1int, m, 0int, 1int);
    lemma_fundamental_div_mod_converse(1int * 17, m, 0int, 17int);
    assert(mod_pow(17, 1, 13427688667394608761327070753331941386769nat) == 17);
    lemma_fundamental_div_mod_converse(17int * 17int, m, 0int, 289int);
    assert(mod_pow(17, 2, 13427688667394608761327070753331941386769nat) == 289);
    lemma_fundamental_div_mod_converse(289int * 289int, m, 0int, 83521int);
    assert(mod_pow(17, 4, 13427688667394608761327070753331941386769nat) == 83521);
    lemma_fundamental_div_mod_converse(83521int * 83521int, m, 0int, 6975757441int);
    lemma_fundamental_div_mod_converse(6975757441int * 17, m, 0int, 118587876497int);
    assert(mod_pow(17, 9, 13427688667394608761327070753331941386769nat) == 118587876497);
    lemma_fundamental_div_mod_converse(118587876497int * 118587876497int, m, 0int, 14063084452067724991009int);
    lemma_fundamental_div_mod_converse(14063084452067724991009int * 17, m, 0int, 239072435685151324847153int);
    assert(mod_pow(17, 19, 13427688667394608761327070753331941386769nat) == 239072435685151324847153nat);
    lemma_fundamental_div_mod_converse(239072435685151324847153int * 239072435685151324847153int, m, 4256550int, 1307232294695775335979823900768960618459int);
    lemma_fundamental_div_mod_converse(1307232294695775335979823900768960618459int * 17, m, 1int, 8795260342433571950329935559740389127034int);
    assert(mod_pow(17, 39, 13427688667394608761327070753331941386769nat) == 8795260342433571950329935559740389127034nat);
    lemma_fundamental_div_mod_converse(8795260342433571950329935559740389127034int * 8795260342433571950329935559740389127034int, m, 5760976919209008747145241330867577928316int, 4544163296514965155292538068779476786152int);
    assert(mod_pow(17, 78, 13427688667394608761327070753331941386769nat) == 4544163296514965155292538068779476786152nat);
    lemma_fundamental_div_mod_converse(4544163296514965155292538068779476786152int * 4544163296514965155292538068779476786152int, m, 1537823863576395233167695011726170611456int, 3230413823946153236081393197253420741440int);
    lemma_fundamental_div_mod_converse(3230413823946153236081393197253420741440int * 17, m, 4int, 1206280337506169968075401339980387057404int);
    assert(mod_pow(17, 157, 13427688667394608761327070753331941386769nat) == 1206280337506169968075401339980387057404nat);
    lemma_fundamental_div_mod_converse(1206280337506169968075401339980387057404int * 1206280337506169968075401339980387057404int, m, 108366546819582806148255566075354716970int, 381570073806253633465576322666693449286int);
    lemma_fundamental_div_mod_converse(381570073806253633465576322666693449286int * 17, m, 0int, 6486691254706311768914797485333788637862int);
    assert(mod_pow(17, 315, 13427688667394608761327070753331941386769nat) == 6486691254706311768914797485333788637862nat);
    lemma_fundamental_div_mod_converse(6486691254706311768914797485333788637862int * 6486691254706311768914797485333788637862int, m, 3133611783542165633988865644193387226473int, 12185952245608847244002476361911091195307int);
    lemma_fundamental_div_mod_converse(12185952245608847244002476361911091195307int * 17, m, 15int, 5745858164431271728136036852509429518684int);
    assert(mod_pow(17, 631, 13427688667394608761327070753331941386769nat) == 5745858164431271728136036852509429518684nat);
    lemma_fundamental_div_mod_converse(5745858164431271728136036852509429518684int * 5745858164431271728136036852509429518684int, m, 2458716973825058376051244268642271762771int, 11901697156844741686584313770835978914957int);
    assert(mod_pow(17, 1262, 13427688667394608761327070753331941386769nat) == 11901697156844741686584313770835978914957nat);
    lemma_fundamental_div_mod_converse(11901697156844741686584313770835978914957int * 11901697156844741686584313770835978914957int, m, 10549127159702818107697480210678793799842int, 11619917295103158913221544266930545221351int);
    lemma_fundamental_div_mod_converse(11619917295103158913221544266930545221351int * 17, m, 14int, 9550952673229178866187261991172089348201int);
    assert(mod_pow(17, 2525, 13427688667394608761327070753331941386769nat) == 9550952673229178866187261991172089348201nat);
    lemma_fundamental_div_mod_converse(9550952673229178866187261991172089348201int * 9550952673229178866187261991172089348201int, m, 6793477211589480793753362784381971117931int, 6396814083797467247787200615523639881462int);
    assert(mod_pow(17, 5050, 13427688667394608761327070753331941386769nat) == 6396814083797467247787200615523639881462nat);
    lemma_fundamental_div_mod_converse(6396814083797467247787200615523639881462int * 6396814083797467247787200615523639881462int, m, 3047377060657546495465389747374445728188int, 12330185070485813822395146426084657712872int);
    lemma_fundamental_div_mod_converse(12330185070485813822395146426084657712872int * 17, m, 15int, 8197816187339703560811427943460060317289int);
    assert(mod_pow(17, 10101, 13427688667394608761327070753331941386769nat) == 8197816187339703560811427943460060317289nat);
    lemma_fundamental_div_mod_converse(8197816187339703560811427943460060317289int * 8197816187339703560811427943460060317289int, m, 5004896367950165381354619257489727835924int, 5789628695033385399280230197061495819965int);
    lemma_fundamental_div_mod_converse(5789628695033385399280230197061495819965int * 17, m, 7int, 4429867143805290458474418076721839232022int);
    assert(mod_pow(17, 20203, 13427688667394608761327070753331941386769nat) == 4429867143805290458474418076721839232022nat);
    lemma_fundamental_div_mod_converse(4429867143805290458474418076721839232022int * 4429867143805290458474418076721839232022int, m, 1461437139171715503666959218718525267923int, 6556223769382652328543119706182857897697int);
    lemma_fundamental_div_mod_converse(6556223769382652328543119706182857897697int * 17, m, 8int, 4034294740348219494616468978453053166697int);
    assert(mod_pow(17, 40407, 13427688667394608761327070753331941386769nat) == 4034294740348219494616468978453053166697nat);
    lemma_fundamental_div_mod_converse(4034294740348219494616468978453053166697int * 4034294740348219494616468978453053166697int, m, 1212087534582321381317821864487072328812int, 6935082042188846433631206051518035601381int);
    assert(mod_pow(17, 80814, 13427688667394608761327070753331941386769nat) == 6935082042188846433631206051518035601381nat);
    lemma_fundamental_div_mod_converse(6935082042188846433631206051518035601381int * 6935082042188846433631206051518035601381int, m, 3581805039066505572518396015018169095360int, 5911240179297469015204790835037725815321int);
    lemma_fundamental_div_mod_converse(5911240179297469015204790835037725815321int * 17, m, 7int, 6497262376294711929191948922317749153074int);
    assert(mod_pow(17, 161629, 13427688667394608761327070753331941386769nat) == 6497262376294711929191948922317749153074nat);
    lemma_fundamental_div_mod_converse(6497262376294711929191948922317749153074int * 6497262376294711929191948922317749153074int, m, 3143833568983523600801270682313595369225int, 9170273744694588751647632107361198865451int);
    lemma_fundamental_div_mod_converse(9170273744694588751647632107361198865451int * 17, m, 11int, 8190078318467312403411967538489025458208int);
    assert(mod_pow(17, 323259, 13427688667394608761327070753331941386769nat) == 8190078318467312403411967538489025458208nat);
    lemma_fundamental_div_mod_converse(8190078318467312403411967538489025458208int * 8190078318467312403411967538489025458208int, m, 4995452644467923014717489125341146083220int, 7325914966878121196506246843684873655084int);
    lemma_fundamental_div_mod_converse(7325914966878121196506246843684873655084int * 17, m, 9int, 3691356430376581488662559562655379655507int);
    assert(mod_pow(17, 646519, 13427688667394608761327070753331941386769nat) == 3691356430376581488662559562655379655507nat);
    lemma_fundamental_div_mod_converse(3691356430376581488662559562655379655507int * 3691356430376581488662559562655379655507int, m, 1014777199084883871010218143017819507374int, 11637942033557718582937894142208013892443int);
    lemma_fundamental_div_mod_converse(11637942033557718582937894142208013892443int * 17, m, 14int, 9857373226956693251365209870889056756765int);
    assert(mod_pow(17, 1293039, 13427688667394608761327070753331941386769nat) == 9857373226956693251365209870889056756765nat);
    lemma_fundamental_div_mod_converse(9857373226956693251365209870889056756765int * 9857373226956693251365209870889056756765int, m, 7236376218005969240129379371622946735034int, 2222879534200284765671851838093616900079int);
    assert(mod_pow(17, 2586078, 13427688667394608761327070753331941386769nat) == 2222879534200284765671851838093616900079nat);
    lemma_fundamental_div_mod_converse(2222879534200284765671851838093616900079int * 2222879534200284765671851838093616900079int, m, 367985402846342647125388999803630358049int, 317563121533072997500143755948408952560int);
    lemma_fundamental_div_mod_converse(317563121533072997500143755948408952560int * 17, m, 0int, 5398573066062240957502443851122952193520int);
    assert(mod_pow(17, 5172157, 13427688667394608761327070753331941386769nat) == 5398573066062240957502443851122952193520nat);
    lemma_fundamental_div_mod_converse(5398573066062240957502443851122952193520int * 5398573066062240957502443851122952193520int, m, 2170484576424695030454931324720512729932int, 12559993017199005237959207221033474920692int);
    lemma_fundamental_div_mod_converse(12559993017199005237959207221033474920692int * 17, m, 15int, 12104551281463957625400461457589952850229int);
    assert(mod_pow(17, 10344315, 13427688667394608761327070753331941386769nat) == 12104551281463957625400461457589952850229nat);
    lemma_fundamental_div_mod_converse(12104551281463957625400461457589952850229int * 12104551281463957625400461457589952850229int, m, 10911793187562802576360603511353860564865int, 13099626728130944277088406871171128081256int);
    assert(mod_pow(17, 20688630, 13427688667394608761327070753331941386769nat) == 13099626728130944277088406871171128081256nat);
    lemma_fundamental_div_mod_converse(13099626728130944277088406871171128081256int * 13099626728130944277088406871171128081256int, m, 12779579916314699142928211428674545175893int, 1386828384137459029534025461098690577819int);
    assert(mod_pow(17, 41377260, 13427688667394608761327070753331941386769nat) == 1386828384137459029534025461098690577819nat);
    lemma_fundamental_div_mod_converse(1386828384137459029534025461098690577819int * 1386828384137459029534025461098690577819int, m, 143233360162683498176622257740334536037int, 538949755624648682909913209142109302308int);
    assert(mod_pow(17, 82754520, 13427688667394608761327070753331941386769nat) == 538949755624648682909913209142109302308nat);
    lemma_fundamental_div_mod_converse(538949755624648682909913209142109302308int * 538949755624648682909913209142109302308int, m, 21631931323607920600309046148514253777int, 5495618462768584856251902737765958050351int);
    lemma_fundamental_div_mod_converse(5495618462768584856251902737765958050351int * 17, m, 6int, 12859381862698289988319922022029638535353int);
    assert(mod_pow(17, 165509041, 13427688667394608761327070753331941386769nat) == 12859381862698289988319922022029638535353nat);
    lemma_fundamental_div_mod_converse(12859381862698289988319922022029638535353int * 12859381862698289988319922022029638535353int, m, 12315127792040137337905770252467971016063int, 9426851716612171447152881043220836164162int);
    assert(mod_pow(17, 331018082, 13427688667394608761327070753331941386769nat) == 9426851716612171447152881043220836164162nat);
    lemma_fundamental_div_mod_converse(9426851716612171447152881043220836164162int * 9426851716612171447152881043220836164162int, m, 6618081152177661728676612122055898216644int, 9541127399811941270119215033062455979008int);
    assert(mod_pow(17, 662036164, 13427688667394608761327070753331941386769nat) == 9541127399811941270119215033062455979008nat);
    lemma_fundamental_div_mod_converse(9541127399811941270119215033062455979008int * 9541127399811941270119215033062455979008int, m, 6779507204429803336513257631080078791639int, 2533992041225758346681820288412274239673int);
    lemma_fundamental_div_mod_converse(2533992041225758346681820288412274239673int * 17, m, 3int, 2794798698654065609609732643012837914134int);
    assert(mod_pow(17, 1324072329, 13427688667394608761327070753331941386769nat) == 2794798698654065609609732643012837914134nat);
    lemma_fundamental_div_mod_converse(2794798698654065609609732643012837914134int * 2794798698654065609609732643012837914134int, m, 581700988120542810491909022887439645253int, 9497532670537650183834502417241729112399int);
    lemma_fundamental_div_mod_converse(9497532670537650183834502417241729112399int * 17, m, 12int, 325791390404747989261692053126098269555int);
    assert(mod_pow(17, 2648144659, 13427688667394608761327070753331941386769nat) == 325791390404747989261692053126098269555nat);
    lemma_fundamental_div_mod_converse(325791390404747989261692053126098269555int * 325791390404747989261692053126098269555int, m, 7904564418416278569231374716655550359int, 7049353532150323490672988259898064097954int);
    assert(mod_pow(17, 5296289318, 13427688667394608761327070753331941386769nat) == 7049353532150323490672988259898064097954nat);
    lemma_fundamental_div_mod_converse(7049353532150323490672988259898064097954int * 7049353532150323490672988259898064097954int, m, 3700814522301723250798117180664646512449int, 4331660678846804232949387635431224598835int);
    lemma_fundamental_div_mod_converse(4331660678846804232949387635431224598835int * 17, m, 5int, 6499788203422628153504236035671111246350int);
    assert(mod_pow(17, 10592578637, 13427688667394608761327070753331941386769nat) == 6499788203422628153504236035671111246350nat);
    lemma_fundamental_div_mod_converse(6499788203422628153504236035671111246350int * 6499788203422628153504236035671111246350int, m, 3146278390557087762384576398476993176610int, 2074692932775220690479407562176454049410int);
    assert(mod_pow(17, 21185157274, 13427688667394608761327070753331941386769nat) == 2074692932775220690479407562176454049410nat);
    lemma_fundamental_div_mod_converse(2074692932775220690479407562176454049410int * 2074692932775220690479407562176454049410int, m, 320557831800148890822968318645821688662int, 6931374686873551931829074425225077235022int);
    assert(mod_pow(17, 42370314548, 13427688667394608761327070753331941386769nat) == 6931374686873551931829074425225077235022nat);
    lemma_fundamental_div_mod_converse(6931374686873551931829074425225077235022int * 6931374686873551931829074425225077235022int, m, 3577976540854179546810622826452879409225int, 12542344844855138775777681668876671796459int);
    lemma_fundamental_div_mod_converse(12542344844855138775777681668876671796459int * 17, m, 15int, 11804532351618227768314527070924299738268int);
    assert(mod_pow(17, 84740629097, 13427688667394608761327070753331941386769nat) == 11804532351618227768314527070924299738268nat);
    lemma_fundamental_div_mod_converse(11804532351618227768314527070924299738268int * 11804532351618227768314527070924299738268int, m, 10377585263707118427607747555913138131936int, 7458673144469487881133530252803376885040int);
    assert(mod_pow(17, 169481258194, 13427688667394608761327070753331941386769nat) == 7458673144469487881133530252803376885040nat);
    lemma_fundamental_div_mod_converse(7458673144469487881133530252803376885040int * 7458673144469487881133530252803376885040int, m, 4143066349990423691184251548947873656133int, 6317119217801306221770037116983113897323int);
    lemma_fundamental_div_mod_converse(6317119217801306221770037116983113897323int * 17, m, 7int, 13397206030859944440801135715389346547108int);
    assert(mod_pow(17, 338962516389, 13427688667394608761327070753331941386769nat) == 13397206030859944440801135715389346547108nat);
    lemma_fundamental_div_mod_converse(13397206030859944440801135715389346547108int * 13397206030859944440801135715389346547108int, m, 13366792593958450103812911431059028825946int, 7209945433675739581917734064060894855190int);
    lemma_fundamental_div_mod_converse(7209945433675739581917734064060894855190int * 17, m, 9int, 1719874365936094040657842309047740057309int);
    assert(mod_pow(17, 677925032779, 13427688667394608761327070753331941386769nat) == 1719874365936094040657842309047740057309nat);
    lemma_fundamental_div_mod_converse(1719874365936094040657842309047740057309int * 1719874365936094040657842309047740057309int, m, 220288681684039946885964027844575750628int, 3652996991970604650551298491939161680549int);
    lemma_fundamental_div_mod_converse(3652996991970604650551298491939161680549int * 17, m, 4int, 8390194193921844014063791349637983022257int);
    assert(mod_pow(17, 1355850065559, 13427688667394608761327070753331941386769nat) == 8390194193921844014063791349637983022257nat);
    lemma_fundamental_div_mod_converse(8390194193921844014063791349637983022257int * 8390194193921844014063791349637983022257int, m, 5242552188646977423385247891799211094842int, 7842148404904591762173296726151494428551int);
    lemma_fundamental_div_mod_converse(7842148404904591762173296726151494428551int * 17, m, 9int, 12467324876826581105002407564587932804446int);
    assert(mod_pow(17, 2711700131119, 13427688667394608761327070753331941386769nat) == 12467324876826581105002407564587932804446nat);
    lemma_fundamental_div_mod_converse(12467324876826581105002407564587932804446int * 12467324876826581105002407564587932804446int, m, 11575647412928737204118606928216399922261int, 7089022167933653461861683174718343402207int);
    lemma_fundamental_div_mod_converse(7089022167933653461861683174718343402207int * 17, m, 8int, 13091867515715238761032047943556306743367int);
    assert(mod_pow(17, 5423400262239, 13427688667394608761327070753331941386769nat) == 13091867515715238761032047943556306743367nat);
    lemma_fundamental_div_mod_converse(13091867515715238761032047943556306743367int * 13091867515715238761032047943556306743367int, m, 12764445117440771800606681436254264827033int, 12987381145477995458012275452683258770312int);
    lemma_fundamental_div_mod_converse(12987381145477995458012275452683258770312int * 17, m, 16int, 5942460794812182604975550642304336907000int);
    assert(mod_pow(17, 10846800524479, 13427688667394608761327070753331941386769nat) == 5942460794812182604975550642304336907000nat);
    lemma_fundamental_div_mod_converse(5942460794812182604975550642304336907000int * 5942460794812182604975550642304336907000int, m, 2629852476668393862429771100093210948563int, 12581679524504487695385715595270501237053int);
    assert(mod_pow(17, 21693601048958, 13427688667394608761327070753331941386769nat) == 12581679524504487695385715595270501237053nat);
    lemma_fundamental_div_mod_converse(12581679524504487695385715595270501237053int * 12581679524504487695385715595270501237053int, m, 11788973037609931319303043274631053744665int, 1717210826781763280336622736332764787424int);
    lemma_fundamental_div_mod_converse(1717210826781763280336622736332764787424int * 17, m, 2int, 2337206720500758243068445010993118612670int);
    assert(mod_pow(17, 43387202097917, 13427688667394608761327070753331941386769nat) == 2337206720500758243068445010993118612670nat);
    lemma_fundamental_div_mod_converse(2337206720500758243068445010993118612670int * 2337206720500758243068445010993118612670int, m, 406811282988572002267937909847796982828int, 6253602080014851783506070548085085126168int);
    assert(mod_pow(17, 86774404195834, 13427688667394608761327070753331941386769nat) == 6253602080014851783506070548085085126168nat);
    lemma_fundamental_div_mod_converse(6253602080014851783506070548085085126168int * 6253602080014851783506070548085085126168int, m, 2912454998314625462945654638574320848435int, 8682420956018642141085413766161915007709int);
    lemma_fundamental_div_mod_converse(8682420956018642141085413766161915007709int * 17, m, 10int, 13324269578370828785181326491433141263363int);
    assert(mod_pow(17, 173548808391669, 13427688667394608761327070753331941386769nat) == 13324269578370828785181326491433141263363nat);
    lemma_fundamental_div_mod_converse(13324269578370828785181326491433141263363int * 13324269578370828785181326491433141263363int, m, 13221647015706829519585715903254865799830int, 11978753876602657899027686061135161620499int);
    assert(mod_pow(17, 347097616783338, 13427688667394608761327070753331941386769nat) == 11978753876602657899027686061135161620499nat);
    lemma_fundamental_div_mod_converse(11978753876602657899027686061135161620499int * 11978753876602657899027686061135161620499int, m, 10686168557411515752590435735410401655723int, 13281777077756885089385538166929371680014int);
    assert(mod_pow(17, 694195233566676, 13427688667394608761327070753331941386769nat) == 13281777077756885089385538166929371680014nat);
    lemma_fundamental_div_mod_converse(13281777077756885089385538166929371680014int * 13281777077756885089385538166929371680014int, m, 13137451032178006388611924649844893743415int, 6392394625952299527222936822418045164061int);
    assert(mod_pow(17, 1388390467133352, 13427688667394608761327070753331941386769nat) == 6392394625952299527222936822418045164061nat);
    lemma_fundamental_div_mod_converse(6392394625952299527222936822418045164061int * 6392394625952299527222936822418045164061int, m, 3043167745847989039439887276758193699411int, 4506742114119033507852521729782727518662int);
    lemma_fundamental_div_mod_converse(4506742114119033507852521729782727518662int * 17, m, 5int, 9476172603050525826857515639646660883409int);
    assert(mod_pow(17, 2776780934266705, 13427688667394608761327070753331941386769nat) == 9476172603050525826857515639646660883409nat);
    lemma_fundamental_div_mod_converse(9476172603050525826857515639646660883409int * 9476172603050525826857515639646660883409int, m, 6687513348507578051266710146949828306613int, 10690259499997427171197991680738138057884int);
    assert(mod_pow(17, 5553561868533410, 13427688667394608761327070753331941386769nat) == 10690259499997427171197991680738138057884nat);
    lemma_fundamental_div_mod_converse(10690259499997427171197991680738138057884int * 10690259499997427171197991680738138057884int, m, 8510894987816205662700743094599940099417int, 11907771015750366101110879870952626143783int);
    assert(mod_pow(17, 11107123737066820, 13427688667394608761327070753331941386769nat) == 11907771015750366101110879870952626143783nat);
    lemma_fundamental_div_mod_converse(11907771015750366101110879870952626143783int * 11907771015750366101110879870952626143783int, m, 10559897095905573227698056861717619850524int, 7401719645649192108222341201969938234133int);
    assert(mod_pow(17, 22214247474133640, 13427688667394608761327070753331941386769nat) == 7401719645649192108222341201969938234133nat);
    lemma_fundamental_div_mod_converse(7401719645649192108222341201969938234133int * 7401719645649192108222341201969938234133int, m, 4080036041185581951849996692488122613492int, 8126005221491113078953940639199256574341int);
    lemma_fundamental_div_mod_converse(8126005221491113078953940639199256574341int * 17, m, 10int, 3865202091402834728946283333067947896107int);
    assert(mod_pow(17, 44428494948267281, 13427688667394608761327070753331941386769nat) == 3865202091402834728946283333067947896107nat);
    lemma_fundamental_div_mod_converse(3865202091402834728946283333067947896107int * 3865202091402834728946283333067947896107int, m, 1112610485500899922595773125371367276511int, 583633075803717901071351173679645872490int);
    assert(mod_pow(17, 88856989896534562, 13427688667394608761327070753331941386769nat) == 583633075803717901071351173679645872490nat);
    lemma_fundamental_div_mod_converse(583633075803717901071351173679645872490int * 583633075803717901071351173679645872490int, m, 25367550261961853999010688254839737375int, 10103253353733129509530237257588079008725int);
    lemma_fundamental_div_mod_converse(10103253353733129509530237257588079008725int * 17, m, 12int, 10623043004727896526089184339014046507097int);
    assert(mod_pow(17, 177713979793069125, 13427688667394608761327070753331941386769nat) == 10623043004727896526089184339014046507097nat);
    lemma_fundamental_div_mod_converse(10623043004727896526089184339014046507097int * 10623043004727896526089184339014046507097int, m, 8404204586178757241888752011013022696212int, 9572498243109409199057410192543388148381int);
    lemma_fundamental_div_mod_converse(9572498243109409199057410192543388148381int * 17, m, 12int, 1600206124124651248051124233254301881249int);
    assert(mod_pow(17, 355427959586138251, 13427688667394608761327070753331941386769nat) == 1600206124124651248051124233254301881249nat);
    lemma_fundamental_div_mod_converse(1600206124124651248051124233254301881249int * 1600206124124651248051124233254301881249int, m, 190699956121553922794461892384872231743int, 13285388382570696447961819080129135791634int);
    lemma_fundamental_div_mod_converse(13285388382570696447961819080129135791634int * 17, m, 16int, 11008583825388099434117792308884246269474int);
    assert(mod_pow(17, 710855919172276503, 13427688667394608761327070753331941386769nat) == 11008583825388099434117792308884246269474nat);
    lemma_fundamental_div_mod_converse(11008583825388099434117792308884246269474int * 11008583825388099434117792308884246269474int, m, 9025299948670236658358035710983753490977int, 1316570225231315081358162357935515553363int);
    assert(mod_pow(17, 1421711838344553006, 13427688667394608761327070753331941386769nat) == 1316570225231315081358162357935515553363nat);
    lemma_fundamental_div_mod_converse(1316570225231315081358162357935515553363int * 1316570225231315081358162357935515553363int, m, 129088274304021466514968749377044695450int, 5402991195883744816091068853511836108719int);
    lemma_fundamental_div_mod_converse(5402991195883744816091068853511836108719int * 17, m, 6int, 11284718325656009305585745989709565527609int);
    assert(mod_pow(17, 2843423676689106013, 13427688667394608761327070753331941386769nat) == 11284718325656009305585745989709565527609nat);
    lemma_fundamental_div_mod_converse(11284718325656009305585745989709565527609int * 11284718325656009305585745989709565527609int, m, 9483751883421158449935353704214628483338int, 11508453910156345596631826283695611101959int);
    assert(mod_pow(17, 5686847353378212026, 13427688667394608761327070753331941386769nat) == 11508453910156345596631826283695611101959nat);
    lemma_fundamental_div_mod_converse(11508453910156345596631826283695611101959int * 11508453910156345596631826283695611101959int, m, 9863537551611349252786312703086855986920int, 8605495383502694491238307848199368576201int);
    assert(mod_pow(17, 11373694706756424052nat, 13427688667394608761327070753331941386769nat) == 8605495383502694491238307848199368576201nat);
    lemma_fundamental_div_mod_converse(8605495383502694491238307848199368576201int * 8605495383502694491238307848199368576201int, m, 5515063137806209213818674077336554550304int, 447145726589458250883349796087013064625int);
    assert(mod_pow(17, 22747389413512848104nat, 13427688667394608761327070753331941386769nat) == 447145726589458250883349796087013064625nat);
    lemma_fundamental_div_mod_converse(447145726589458250883349796087013064625int * 447145726589458250883349796087013064625int, m, 14890075705486923849684732722499328793int, 2323809590397173012553775239214315450808int);
    assert(mod_pow(17, 45494778827025696208nat, 13427688667394608761327070753331941386769nat) == 2323809590397173012553775239214315450808nat);
    lemma_fundamental_div_mod_converse(2323809590397173012553775239214315450808int * 2323809590397173012553775239214315450808int, m, 402160874159563265265475174619124045794int, 9544234102802058930052468648142046153278int);
    assert(mod_pow(17, 90989557654051392416nat, 13427688667394608761327070753331941386769nat) == 9544234102802058930052468648142046153278nat);
    lemma_fundamental_div_mod_converse(9544234102802058930052468648142046153278int * 9544234102802058930052468648142046153278int, m, 6783922897339903552384504660767653897678int, 8816063233346799215084611521213721122902int);
    assert(mod_pow(17, 181979115308102784832nat, 13427688667394608761327070753331941386769nat) == 8816063233346799215084611521213721122902nat);
    lemma_fundamental_div_mod_converse(8816063233346799215084611521213721122902int * 8816063233346799215084611521213721122902int, m, 5788261320289451217879123874918915313518int, 12092628824719900673924040606056456858262int);
    lemma_fundamental_div_mod_converse(12092628824719900673924040606056456858262int * 17, m, 15int, 4159360009319180036802629002980645788919int);
    assert(mod_pow(17, 363958230616205569665nat, 13427688667394608761327070753331941386769nat) == 4159360009319180036802629002980645788919nat);
    lemma_fundamental_div_mod_converse(4159360009319180036802629002980645788919int * 4159360009319180036802629002980645788919int, m, 1288403098675689178587916770199945875438int, 5579404010981784637113028884936447908739int);
    assert(mod_pow(17, 727916461232411139330nat, 13427688667394608761327070753331941386769nat) == 5579404010981784637113028884936447908739nat);
    lemma_fundamental_div_mod_converse(5579404010981784637113028884936447908739int * 5579404010981784637113028884936447908739int, m, 2318325207624863003904749836459681528696int, 7129981658838146373496248254202364346897int);
    lemma_fundamental_div_mod_converse(7129981658838146373496248254202364346897int * 17, m, 9int, 360490193697009497492583541452721416328int);
    assert(mod_pow(17, 1455832922464822278661nat, 13427688667394608761327070753331941386769nat) == 360490193697009497492583541452721416328nat);
    lemma_fundamental_div_mod_converse(360490193697009497492583541452721416328int * 360490193697009497492583541452721416328int, m, 9678000657496805379432749306434549714int, 5638753639332225610193473689031072669518int);
    assert(mod_pow(17, 2911665844929644557322nat, 13427688667394608761327070753331941386769nat) == 5638753639332225610193473689031072669518nat);
    lemma_fundamental_div_mod_converse(5638753639332225610193473689031072669518int * 5638753639332225610193473689031072669518int, m, 2367908833207386836592483237881128115921int, 3132323641530359210014396109001918703075int);
    lemma_fundamental_div_mod_converse(3132323641530359210014396109001918703075int * 17, m, 3int, 12966435903832280286263521593036793791968int);
    assert(mod_pow(17, 5823331689859289114645nat, 13427688667394608761327070753331941386769nat) == 12966435903832280286263521593036793791968nat);
    lemma_fundamental_div_mod_converse(12966435903832280286263521593036793791968int * 12966435903832280286263521593036793791968int, m, 12521027573155151125372806181554431274398int, 681164017024037732852726200608375672962int);
    assert(mod_pow(17, 11646663379718578229290nat, 13427688667394608761327070753331941386769nat) == 681164017024037732852726200608375672962nat);
    lemma_fundamental_div_mod_converse(681164017024037732852726200608375672962int * 681164017024037732852726200608375672962int, m, 34554302648897432600329991946711930687int, 12876313053948953188083910718966190973141int);
    assert(mod_pow(17, 23293326759437156458580nat, 13427688667394608761327070753331941386769nat) == 12876313053948953188083910718966190973141nat);
    lemma_fundamental_div_mod_converse(12876313053948953188083910718966190973141int * 12876313053948953188083910718966190973141int, m, 12347578348751400556815755641164472949703int, 705519979972913665023817756750776726274int);
    assert(mod_pow(17, 46586653518874312917160nat, 13427688667394608761327070753331941386769nat) == 705519979972913665023817756750776726274nat);
    lemma_fundamental_div_mod_converse(705519979972913665023817756750776726274int * 705519979972913665023817756750776726274int, m, 37069554892916741457255232160517653537int, 5931366630146339568528553717727064071123int);
    lemma_fundamental_div_mod_converse(5931366630146339568528553717727064071123int * 17, m, 7int, 6839412040725511335695917928036499501708int);
    assert(mod_pow(17, 93173307037748625834321nat, 13427688667394608761327070753331941386769nat) == 6839412040725511335695917928036499501708nat);
    lemma_fundamental_div_mod_converse(6839412040725511335695917928036499501708int * 6839412040725511335695917928036499501708int, m, 3483664107912133434561546979777273812120int, 7003103635846700278179061367592335076984int);
    lemma_fundamental_div_mod_converse(7003103635846700278179061367592335076984int * 17, m, 8int, 11631252470237034638427477222414165214576int);
    assert(mod_pow(17, 186346614075497251668643nat, 13427688667394608761327070753331941386769nat) == 11631252470237034638427477222414165214576nat);
    lemma_fundamental_div_mod_converse(11631252470237034638427477222414165214576int * 11631252470237034638427477222414165214576int, m, 10075154211379614810359883209164121586390int, 6209646491369950850549140332759286385866int);
    assert(mod_pow(17, 372693228150994503337286nat, 13427688667394608761327070753331941386769nat) == 6209646491369950850549140332759286385866nat);
    lemma_fundamental_div_mod_converse(6209646491369950850549140332759286385866int * 6209646491369950850549140332759286385866int, m, 2871656507900322787958140336616938061489int, 11962036908640206098076089503214991530915int);
    assert(mod_pow(17, 745386456301989006674572nat, 13427688667394608761327070753331941386769nat) == 11962036908640206098076089503214991530915nat);
    lemma_fundamental_div_mod_converse(11962036908640206098076089503214991530915int * 11962036908640206098076089503214991530915int, m, 10656363172250592078802950120208684005827int, 6554492913599408196985230553450944034262int);
    lemma_fundamental_div_mod_converse(6554492913599408196985230553450944034262int * 17, m, 8int, 4004870192033069258132353382010517488302int);
    assert(mod_pow(17, 1490772912603978013349145nat, 13427688667394608761327070753331941386769nat) == 4004870192033069258132353382010517488302nat);
    lemma_fundamental_div_mod_converse(4004870192033069258132353382010517488302int * 4004870192033069258132353382010517488302int, m, 1194471040573139637760943103885249321301int, 3641881235729602945306991079212715576735int);
    assert(mod_pow(17, 2981545825207956026698290nat, 13427688667394608761327070753331941386769nat) == 3641881235729602945306991079212715576735nat);
    lemma_fundamental_div_mod_converse(3641881235729602945306991079212715576735int * 3641881235729602945306991079212715576735int, m, 987757406631388205229557015221734360847int, 12111844806190945483760857155812635826882int);
    lemma_fundamental_div_mod_converse(12111844806190945483760857155812635826882int * 17, m, 15int, 4486031694326941804028510348835688255459int);
    assert(mod_pow(17, 5963091650415912053396581nat, 13427688667394608761327070753331941386769nat) == 4486031694326941804028510348835688255459nat);
    lemma_fundamental_div_mod_converse(4486031694326941804028510348835688255459int * 4486031694326941804028510348835688255459int, m, 1498730039174391309389708593822864594758int, 6426144628770698582775306278025115343779int);
    assert(mod_pow(17, 11926183300831824106793162nat, 13427688667394608761327070753331941386769nat) == 6426144628770698582775306278025115343779nat);
    lemma_fundamental_div_mod_converse(6426144628770698582775306278025115343779int * 6426144628770698582775306278025115343779int, m, 3075386673966658551929003309079727687668int, 4721798602303604532168357783735734336149int);
    lemma_fundamental_div_mod_converse(4721798602303604532168357783735734336149int * 17, m, 5int, 13132132902188233240226728556847776780688int);
    assert(mod_pow(17, 23852366601663648213586325nat, 13427688667394608761327070753331941386769nat) == 13132132902188233240226728556847776780688nat);
    lemma_fundamental_div_mod_converse(13132132902188233240226728556847776780688int * 13132132902188233240226728556847776780688int, m, 12843082590936776933664036055050799557353int, 1113220547937002986472494310703078890887int);
    assert(mod_pow(17, 47704733203327296427172650nat, 13427688667394608761327070753331941386769nat) == 1113220547937002986472494310703078890887nat);
    lemma_fundamental_div_mod_converse(1113220547937002986472494310703078890887int * 1113220547937002986472494310703078890887int, m, 92291385289439863874886542058412847485int, 7239114500142527728558922148597057720804int);
    lemma_fundamental_div_mod_converse(7239114500142527728558922148597057720804int * 17, m, 9int, 2215748495871492533558039746162508772747int);
    assert(mod_pow(17, 95409466406654592854345301nat, 13427688667394608761327070753331941386769nat) == 2215748495871492533558039746162508772747nat);
    lemma_fundamental_div_mod_converse(2215748495871492533558039746162508772747int * 2215748495871492533558039746162508772747int, m, 365628182077100989803110755163706082280int, 516469894152066840285324334192872572689int);
    assert(mod_pow(17, 190818932813309185708690602nat, 13427688667394608761327070753331941386769nat) == 516469894152066840285324334192872572689nat);
    lemma_fundamental_div_mod_converse(516469894152066840285324334192872572689int * 516469894152066840285324334192872572689int, m, 19865008652840864926722390249089978559int, 9162659051916182219699541797538652404850int);
    lemma_fundamental_div_mod_converse(9162659051916182219699541797538652404850int * 17, m, 11int, 8060628541234401360294432271505735627991int);
    assert(mod_pow(17, 381637865626618371417381205nat, 13427688667394608761327070753331941386769nat) == 8060628541234401360294432271505735627991nat);
    lemma_fundamental_div_mod_converse(8060628541234401360294432271505735627991int * 8060628541234401360294432271505735627991int, m, 4838787529944240798893093722078338006195int, 10274170931120174372682415075364329662126int);
    assert(mod_pow(17, 763275731253236742834762410nat, 13427688667394608761327070753331941386769nat) == 10274170931120174372682415075364329662126nat);
    lemma_fundamental_div_mod_converse(10274170931120174372682415075364329662126int * 10274170931120174372682415075364329662126int, m, 7861262718891773044560084886454499237131int, 11720032380642723114187891569128601920137int);
    assert(mod_pow(17, 1526551462506473485669524820nat, 13427688667394608761327070753331941386769nat) == 11720032380642723114187891569128601920137nat);
    lemma_fundamental_div_mod_converse(11720032380642723114187891569128601920137int * 11720032380642723114187891569128601920137int, m, 10229546007933017214078472406158465181704int, 7334855165888653416895452273495999624393int);
    assert(mod_pow(17, 3053102925012946971339049640nat, 13427688667394608761327070753331941386769nat) == 7334855165888653416895452273495999624393nat);
    lemma_fundamental_div_mod_converse(7334855165888653416895452273495999624393int * 7334855165888653416895452273495999624393int, m, 4006653835756706312992474669644804945566int, 1051995163063960448334484490309483002195int);
    assert(mod_pow(17, 6106205850025893942678099280nat, 13427688667394608761327070753331941386769nat) == 1051995163063960448334484490309483002195nat);
    lemma_fundamental_div_mod_converse(1051995163063960448334484490309483002195int * 1051995163063960448334484490309483002195int, m, 82418787813964256978786117531573397865int, 8487635966146137274356600572812890969840int);
    assert(mod_pow(17, 12212411700051787885356198560nat, 13427688667394608761327070753331941386769nat) == 8487635966146137274356600572812890969840nat);
    lemma_fundamental_div_mod_converse(8487635966146137274356600572812890969840int * 8487635966146137274356600572812890969840int, m, 5365030875994794535786070587265375146639int, 457266643250154050055219048039400206209int);
    lemma_fundamental_div_mod_converse(457266643250154050055219048039400206209int * 17, m, 0int, 7773532935252618850938723816669803505553int);
    assert(mod_pow(17, 24424823400103575770712397121nat, 13427688667394608761327070753331941386769nat) == 7773532935252618850938723816669803505553nat);
    lemma_fundamental_div_mod_converse(7773532935252618850938723816669803505553int * 7773532935252618850938723816669803505553int, m, 4500239452392820527153790666151216695191int, 9511742456613690983760410065761988507930int);
    lemma_fundamental_div_mod_converse(9511742456613690983760410065761988507930int * 17, m, 12int, 567357753697441588002122077970507993582int);
    assert(mod_pow(17, 48849646800207151541424794243nat, 13427688667394608761327070753331941386769nat) == 567357753697441588002122077970507993582nat);
    lemma_fundamental_div_mod_converse(567357753697441588002122077970507993582int * 567357753697441588002122077970507993582int, m, 23972466792608801889397467023402287737int, 7233679306378590466231427305572410438971int);
    lemma_fundamental_div_mod_converse(7233679306378590466231427305572410438971int * 17, m, 9int, 2123350201884559073990627414743504981586int);
    assert(mod_pow(17, 97699293600414303082849588487nat, 13427688667394608761327070753331941386769nat) == 2123350201884559073990627414743504981586nat);
    lemma_fundamental_div_mod_converse(2123350201884559073990627414743504981586int * 2123350201884559073990627414743504981586int, m, 335770078642880107674992006758998563442int, 1683583074473538420647838706581893176498int);
    lemma_fundamental_div_mod_converse(1683583074473538420647838706581893176498int * 17, m, 2int, 1765534931260935628359116505228301226928int);
    assert(mod_pow(17, 195398587200828606165699176975nat, 13427688667394608761327070753331941386769nat) == 1765534931260935628359116505228301226928nat);
    lemma_fundamental_div_mod_converse(1765534931260935628359116505228301226928int * 1765534931260935628359116505228301226928int, m, 232140740727151082087052862721451526633int, 543994049772190209487075732659994998407int);
    assert(mod_pow(17, 390797174401657212331398353950nat, 13427688667394608761327070753331941386769nat) == 543994049772190209487075732659994998407nat);
    lemma_fundamental_div_mod_converse(543994049772190209487075732659994998407int * 543994049772190209487075732659994998407int, m, 22038753914970515567641299948621568658int, 4040433742608825654133524345935266251647int);
    lemma_fundamental_div_mod_converse(4040433742608825654133524345935266251647int * 17, m, 5int, 1548930287376992313634560114239819344154int);
    assert(mod_pow(17, 781594348803314424662796707901nat, 13427688667394608761327070753331941386769nat) == 1548930287376992313634560114239819344154nat);
    lemma_fundamental_div_mod_converse(1548930287376992313634560114239819344154int * 1548930287376992313634560114239819344154int, m, 178674461002325940099543401066401899504int, 6729094596098463923960458456001160713140int);
    assert(mod_pow(17, 1563188697606628849325593415802nat, 13427688667394608761327070753331941386769nat) == 6729094596098463923960458456001160713140nat);
    lemma_fundamental_div_mod_converse(6729094596098463923960458456001160713140int * 6729094596098463923960458456001160713140int, m, 3372189749468433494866243712595943826326int, 10180786712294511707437260781916838378906int);
    lemma_fundamental_div_mod_converse(10180786712294511707437260781916838378906int * 17, m, 12int, 11941110100271393890508584252602955800174int);
    assert(mod_pow(17, 3126377395213257698651186831605nat, 13427688667394608761327070753331941386769nat) == 11941110100271393890508584252602955800174nat);
    lemma_fundamental_div_mod_converse(11941110100271393890508584252602955800174int * 11941110100271393890508584252602955800174int, m, 10619110552737475425153405735478306108267int, 663574920415741744291688515237183110953int);
    lemma_fundamental_div_mod_converse(663574920415741744291688515237183110953int * 17, m, 0int, 11280773647067609652958704759032112886201int);
    assert(mod_pow(17, 6252754790426515397302373663211nat, 13427688667394608761327070753331941386769nat) == 11280773647067609652958704759032112886201nat);
    lemma_fundamental_div_mod_converse(11280773647067609652958704759032112886201int * 11280773647067609652958704759032112886201int, m, 9477122774329758990147166854126255837956int, 9180847278806899295264105045361589808237int);
    assert(mod_pow(17, 12505509580853030794604747326422nat, 13427688667394608761327070753331941386769nat) == 9180847278806899295264105045361589808237nat);
    lemma_fundamental_div_mod_converse(9180847278806899295264105045361589808237int * 9180847278806899295264105045361589808237int, m, 6277175383239693881646149758491205987134int, 11842263030804321665644660388374901218123int);
    assert(mod_pow(17, 25011019161706061589209494652844nat, 13427688667394608761327070753331941386769nat) == 11842263030804321665644660388374901218123nat);
    lemma_fundamental_div_mod_converse(11842263030804321665644660388374901218123int * 11842263030804321665644660388374901218123int, m, 10444030775846513920630797748006276350198int, 5560373681315400216925411103537215912867int);
    lemma_fundamental_div_mod_converse(5560373681315400216925411103537215912867int * 17, m, 7int, 532531910599542358442493486809080811356int);
    assert(mod_pow(17, 50022038323412123178418989305689nat, 13427688667394608761327070753331941386769nat) == 532531910599542358442493486809080811356nat);
    lemma_fundamental_div_mod_converse(532531910599542358442493486809080811356int * 532531910599542358442493486809080811356int, m, 21119810179649059684261759616970984863int, 8767046303210434783314930514823331081089int);
    lemma_fundamental_div_mod_converse(8767046303210434783314930514823331081089int * 17, m, 11int, 1335211813236694941756040465345273124054int);
    assert(mod_pow(17, 100044076646824246356837978611379nat, 13427688667394608761327070753331941386769nat) == 1335211813236694941756040465345273124054nat);
    lemma_fundamental_div_mod_converse(1335211813236694941756040465345273124054int * 1335211813236694941756040465345273124054int, m, 132769729055144962823844069735750509937int, 10642831109705614141060880207522178571363int);
    assert(mod_pow(17, 200088153293648492713675957222758nat, 13427688667394608761327070753331941386769nat) == 10642831109705614141060880207522178571363nat);
    lemma_fundamental_div_mod_converse(10642831109705614141060880207522178571363int * 10642831109705614141060880207522178571363int, m, 8435543661714605846162963335734950916162int, 8392207679471789590250933753742348617191int);
    lemma_fundamental_div_mod_converse(8392207679471789590250933753742348617191int * 17, m, 10int, 8390643877074335420995166280300512624557int);
    assert(mod_pow(17, 400176306587296985427351914445517nat, 13427688667394608761327070753331941386769nat) == 8390643877074335420995166280300512624557nat);
    lemma_fundamental_div_mod_converse(8390643877074335420995166280300512624557int * 8390643877074335420995166280300512624557int, m, 5243114166240599837434667244933574414912int, 6024717821609011699046964128189366346921int);
    lemma_fundamental_div_mod_converse(6024717821609011699046964128189366346921int * 17, m, 7int, 8426382295590937554508894905895638190274int);
    assert(mod_pow(17, 800352613174593970854703828891035nat, 13427688667394608761327070753331941386769nat) == 8426382295590937554508894905895638190274nat);
    lemma_fundamental_div_mod_converse(8426382295590937554508894905895638190274int * 8426382295590937554508894905895638190274int, m, 5287873464318664286846682183544562859811int, 5725845002656871024281680538729950954417int);
    assert(mod_pow(17, 1600705226349187941709407657782070nat, 13427688667394608761327070753331941386769nat) == 5725845002656871024281680538729950954417nat);
    lemma_fundamental_div_mod_converse(5725845002656871024281680538729950954417int * 5725845002656871024281680538729950954417int, m, 2441619090712209395768884495812250733238int, 12197134425377653033359798882130410081867int);
    lemma_fundamental_div_mod_converse(12197134425377653033359798882130410081867int * 17, m, 15int, 5935955220500970147210519696237850590204int);
    assert(mod_pow(17, 3201410452698375883418815315564141nat, 13427688667394608761327070753331941386769nat) == 5935955220500970147210519696237850590204nat);
    lemma_fundamental_div_mod_converse(5935955220500970147210519696237850590204int * 5935955220500970147210519696237850590204int, m, 2624097508706203997776668836018894428312int, 4035335447011953410018986672298404957688int);
    lemma_fundamental_div_mod_converse(4035335447011953410018986672298404957688int * 17, m, 5int, 1462259262230164163687419662413177346851int);
    assert(mod_pow(17, 6402820905396751766837630631128283nat, 13427688667394608761327070753331941386769nat) == 1462259262230164163687419662413177346851nat);
    lemma_fundamental_div_mod_converse(1462259262230164163687419662413177346851int * 1462259262230164163687419662413177346851int, m, 159238287611622294466140855545009662355int, 6633935299255011914433674740208405235206int);
    assert(mod_pow(17, 12805641810793503533675261262256566nat, 13427688667394608761327070753331941386769nat) == 6633935299255011914433674740208405235206nat);
    lemma_fundamental_div_mod_converse(6633935299255011914433674740208405235206int * 6633935299255011914433674740208405235206int, m, 3277488676183376596301229453087563639217int, 13229101830424085727956711351036808542563int);
    assert(mod_pow(17, 25611283621587007067350522524513132nat, 13427688667394608761327070753331941386769nat) == 13229101830424085727956711351036808542563nat);
    lemma_fundamental_div_mod_converse(13229101830424085727956711351036808542563int * 13229101830424085727956711351036808542563int, m, 13033451964424130263777777997227255983423int, 4277886193521605800985418530628687078682int);
    lemma_fundamental_div_mod_converse(4277886193521605800985418530628687078682int * 17, m, 5int, 5585621952894254810116761254027973403749int);
    assert(mod_pow(17, 51222567243174014134701045049026265nat, 13427688667394608761327070753331941386769nat) == 5585621952894254810116761254027973403749nat);
    lemma_fundamental_div_mod_converse(5585621952894254810116761254027973403749int * 5585621952894254810116761254027973403749int, m, 2323495381331911935858013788516653348346int, 8964774650682002949906669370486094820927int);
    lemma_fundamental_div_mod_converse(8964774650682002949906669370486094820927int * 17, m, 11int, 4696593720253353773815601011612256701300int);
    assert(mod_pow(17, 102445134486348028269402090098052531nat, 13427688667394608761327070753331941386769nat) == 4696593720253353773815601011612256701300nat);
    lemma_fundamental_div_mod_converse(4696593720253353773815601011612256701300int * 4696593720253353773815601011612256701300int, m, 1642724456866870282718595569832673294702int, 12168863820488168760976891550863321092162int);
    assert(mod_pow(17, 204890268972696056538804180196105062nat, 13427688667394608761327070753331941386769nat) == 12168863820488168760976891550863321092162nat);
    lemma_fundamental_div_mod_converse(12168863820488168760976891550863321092162int * 12168863820488168760976891550863321092162int, m, 11028051837481148599214166826799349817009int, 4610639787788718197743120629274654080323int);
    lemma_fundamental_div_mod_converse(4610639787788718197743120629274654080323int * 17, m, 5int, 11242433055435165554997696931009412431646int);
    assert(mod_pow(17, 409780537945392113077608360392210125nat, 13427688667394608761327070753331941386769nat) == 11242433055435165554997696931009412431646nat);
    lemma_fundamental_div_mod_converse(11242433055435165554997696931009412431646int * 11242433055435165554997696931009412431646int, m, 9412811403115837107500874899105498463659int, 5990395264771641762857167834523212341545int);
    assert(mod_pow(17, 819561075890784226155216720784420250nat, 13427688667394608761327070753331941386769nat) == 5990395264771641762857167834523212341545nat);
    lemma_fundamental_div_mod_converse(5990395264771641762857167834523212341545int * 5990395264771641762857167834523212341545int, m, 2672450659012880401614320728452088704417int, 2843905526652276696351666085222217328352int);
    lemma_fundamental_div_mod_converse(2843905526652276696351666085222217328352int * 17, m, 3int, 8063327950904877553997111188781870421677int);
    assert(mod_pow(17, 1639122151781568452310433441568840501nat, 13427688667394608761327070753331941386769nat) == 8063327950904877553997111188781870421677nat);
    lemma_fundamental_div_mod_converse(8063327950904877553997111188781870421677int * 8063327950904877553997111188781870421677int, m, 4842028978652156322607429441460974989938int, 5667242665405035742085973976524250162007int);
    assert(mod_pow(17, 3278244303563136904620866883137681002nat, 13427688667394608761327070753331941386769nat) == 5667242665405035742085973976524250162007nat);
    lemma_fundamental_div_mod_converse(5667242665405035742085973976524250162007int * 5667242665405035742085973976524250162007int, m, 2391896343752435219351090104951946408486int, 11209219790863186140825637131753956546315int);
    lemma_fundamental_div_mod_converse(11209219790863186140825637131753956546315int * 17, m, 14int, 2569095101149641735456840693170081872589int);
    assert(mod_pow(17, 6556488607126273809241733766275362005nat, 13427688667394608761327070753331941386769nat) == 2569095101149641735456840693170081872589nat);
    lemma_fundamental_div_mod_converse(2569095101149641735456840693170081872589int * 2569095101149641735456840693170081872589int, m, 491540264466955547790056711013572286293int, 4683065924814722145737422815656519305604int);
    assert(mod_pow(17, 13112977214252547618483467532550724010nat, 13427688667394608761327070753331941386769nat) == 4683065924814722145737422815656519305604nat);
    lemma_fundamental_div_mod_converse(4683065924814722145737422815656519305604int * 4683065924814722145737422815656519305604int, m, 1633274869517516810918997533486133629286int, 13241763702835037043838924855516554487882int);
    lemma_fundamental_div_mod_converse(13241763702835037043838924855516554487882int * 17, m, 16int, 10266964269881889564028590490470364105690int);
    assert(mod_pow(17, 26225954428505095236966935065101448021nat, 13427688667394608761327070753331941386769nat) == 10266964269881889564028590490470364105690nat);
    lemma_fundamental_div_mod_converse(10266964269881889564028590490470364105690int * 10266964269881889564028590490470364105690int, m, 7850238259916723525868792333692445813444int, 9658511477900340777447299135563866453664int);
    assert(mod_pow(17, 52451908857010190473933870130202896042nat, 13427688667394608761327070753331941386769nat) == 9658511477900340777447299135563866453664nat);
    lemma_fundamental_div_mod_converse(9658511477900340777447299135563866453664int * 9658511477900340777447299135563866453664int, m, 6947349337585825043583512250151156450585int, 5472232721054092255277196266351137715031int);
    assert(mod_pow(17, 104903817714020380947867740260405792084nat, 13427688667394608761327070753331941386769nat) == 5472232721054092255277196266351137715031nat);
    lemma_fundamental_div_mod_converse(5472232721054092255277196266351137715031int * 5472232721054092255277196266351137715031int, m, 2230118056437288898284536730741524750942int, 11849361731056993778231564561966944244563int);
    assert(mod_pow(17, 209807635428040761895735480520811584168nat, 13427688667394608761327070753331941386769nat) == 11849361731056993778231564561966944244563nat);
    lemma_fundamental_div_mod_converse(11849361731056993778231564561966944244563int * 11849361731056993778231564561966944244563int, m, 10456555622590363093081807444692355112869int, 10770117137348340395724190684167376830708int);
    assert(mod_pow(17, 419615270856081523791470961041623168336nat, 13427688667394608761327070753331941386769nat) == 10770117137348340395724190684167376830708nat);
    lemma_fundamental_div_mod_converse(10770117137348340395724190684167376830708int * 10770117137348340395724190684167376830708int, m, 8638524918578645273136263303878689246507int, 4502086874959455053107577199313222515381int);
    lemma_fundamental_div_mod_converse(4502086874959455053107577199313222515381int * 17, m, 5int, 9397033537337692096193458621665075827632int);
    assert(mod_pow(17, 839230541712163047582941922083246336673nat, 13427688667394608761327070753331941386769nat) == 9397033537337692096193458621665075827632nat);
    lemma_fundamental_div_mod_converse(9397033537337692096193458621665075827632int * 9397033537337692096193458621665075827632int, m, 6576279916012017602994664533189007061457int, 3636941307512651589809390357219585064991int);
    assert(mod_pow(17, 1678461083424326095165883844166492673346nat, 13427688667394608761327070753331941386769nat) == 3636941307512651589809390357219585064991nat);
    lemma_fundamental_div_mod_converse(3636941307512651589809390357219585064991int * 3636941307512651589809390357219585064991int, m, 985079592023215524393714218685568008691int, 6741392840749172352648292846749309420702int);
    assert(mod_pow(17, 3356922166848652190331767688332985346692nat, 13427688667394608761327070753331941386769nat) == 6741392840749172352648292846749309420702nat);
    lemma_fundamental_div_mod_converse(6741392840749172352648292846749309420702int * 6741392840749172352648292846749309420702int, m, 3384527192953023192506716153273743137844int, 13427688667394608761327070753331941386768int);
    assert(mod_pow(17, 6713844333697304380663535376665970693384nat, 13427688667394608761327070753331941386769nat) == 13427688667394608761327070753331941386768nat);
}

#[verifier::rlimit(100)]
pub proof fn lemma_pow_p134276_41_digits_by_3()
    ensures
        mod_pow(17, 4475896222464869587109023584443980462256nat, 13427688667394608761327070753331941386769nat) == 2685568617321800533408078349748043375580nat,
{
    let m = 13427688667394608761327070753331941386769int;
    lemma_fundamental_div_mod_converse(1, m, 0, 1);
    assert(mod_pow(17, 0, 13427688667394608761327070753331941386769nat) == 1);
    lemma_fundamental_div_mod_converse(1int * 1int, m, 0int, 1int);
    lemma_fundamental_div_mod_converse(1int * 17, m, 0int, 17int);
    assert(mod_pow(17, 1, 13427688667394608761327070753331941386769nat) == 17);
    lemma_fundamental_div_mod_converse(17int * 17int, m, 0int, 289int);
    lemma_fundamental_div_mod_converse(289int * 17, m, 0int, 4913int);
    assert(mod_pow(17, 3, 13427688667394608761327070753331941386769nat) == 4913);
    lemma_fundamental_div_mod_converse(4913int * 4913int, m, 0int, 24137569int);
    assert(mod_pow(17, 6, 13427688667394608761327070753331941386769nat) == 24137569);
    lemma_fundamental_div_mod_converse(24137569int * 24137569int, m, 0int, 582622237229761int);
    lemma_fundamental_div_mod_converse(582622237229761int * 17, m, 0int, 9904578032905937int);
    assert(mod_pow(17, 13, 13427688667394608761327070753331941386769nat) == 9904578032905937);
    lemma_fundamental_div_mod_converse(9904578032905937int * 9904578032905937int, m, 0int, 98100666009922840441972689847969int);
    assert(mod_pow(17, 26, 13427688667394608761327070753331941386769nat) == 98100666009922840441972689847969nat);
    lemma_fundamental_div_mod_converse(98100666009922840441972689847969int * 98100666009922840441972689847969int, m, 716708654033586329786207int, 11358037415689647439851053414433464929778int);
    assert(mod_pow(17, 52, 13427688667394608761327070753331941386769nat) == 11358037415689647439851053414433464929778nat);
    lemma_fundamental_div_mod_converse(11358037415689647439851053414433464929778int * 11358037415689647439851053414433464929778int, m, 9607387922946009843436868462819277995115int, 4518233680577440001100344810647363495849int);
    lemma_fundamental_div_mod_converse(4518233680577440001100344810647363495849int * 17, m, 5int, 9671529232843436212070508014345472495588int);
    assert(mod_pow(17, 105, 13427688667394608761327070753331941386769nat) == 9671529232843436212070508014345472495588nat);
    lemma_fundamental_div_mod_converse(9671529232843436212070508014345472495588int * 9671529232843436212070508014345472495588int, m, 6966089251747190954924166882174953406280int, 3292979503514189029366940273257205956424int);
    assert(mod_pow(17, 210, 13427688667394608761327070753331941386769nat) == 3292979503514189029366940273257205956424nat);
    lemma_fundamental_div_mod_converse(3292979503514189029366940273257205956424int * 3292979503514189029366940273257205956424int, m, 807563705054875559594740846569779831678int, 9350849984136053594373743935781870599394int);
    assert(mod_pow(17, 420, 13427688667394608761327070753331941386769nat) == 9350849984136053594373743935781870599394nat);
    lemma_fundamental_div_mod_converse(9350849984136053594373743935781870599394int * 9350849984136053594373743935781870599394int, m, 6511797941676809450692858235472626178260int, 11080068998719477201849673446775833725296int);
    lemma_fundamental_div_mod_converse(11080068998719477201849673446775833725296int * 17, m, 14int, 373531634706589772865458048541993915266int);
    assert(mod_pow(17, 841, 13427688667394608761327070753331941386769nat) == 373531634706589772865458048541993915266nat);
    lemma_fundamental_div_mod_converse(373531634706589772865458048541993915266int * 373531634706589772865458048541993915266int, m, 10390908337439849422405114366985699395int, 9613722845060586907087352638800323546001int);
    lemma_fundamental_div_mod_converse(9613722845060586907087352638800323546001int * 17, m, 12int, 2301024357294672284560145819622203640789int);
    assert(mod_pow(17, 1683, 13427688667394608761327070753331941386769nat) == 2301024357294672284560145819622203640789nat);
    lemma_fundamental_div_mod_converse(2301024357294672284560145819622203640789int * 2301024357294672284560145819622203640789int, m, 394313066382011928620642044904088133617int, 7953623621767782566122004721862996629048int);
    lemma_fundamental_div_mod_converse(7953623621767782566122004721862996629048int * 17, m, 10int, 934714896106216010803372738351528826126int);
    assert(mod_pow(17, 3367, 13427688667394608761327070753331941386769nat) == 934714896106216010803372738351528826126nat);
    lemma_fundamental_div_mod_converse(934714896106216010803372738351528826126int * 934714896106216010803372738351528826126int, m, 65066442829015764711860228883784603610int, 7027596267601044625203192984129176531786int);
    assert(mod_pow(17, 6734, 13427688667394608761327070753331941386769nat) == 7027596267601044625203192984129176531786nat);
    lemma_fundamental_div_mod_converse(7027596267601044625203192984129176531786int * 7027596267601044625203192984129176531786int, m, 3678005241536686287366148347708615400658int, 3448165958393731006238400114972393255794int);
    lemma_fundamental_div_mod_converse(3448165958393731006238400114972393255794int * 17, m, 4int, 4908066623114992060744518941202919801422int);
    assert(mod_pow(17, 13469, 13427688667394608761327070753331941386769nat) == 4908066623114992060744518941202919801422nat);
    lemma_fundamental_div_mod_converse(4908066623114992060744518941202919801422int * 4908066623114992060744518941202919801422int, m, 1793988420019678876819945623173910114726int, 843104410921346467183078592839584761790int);
    assert(mod_pow(17, 26938, 13427688667394608761327070753331941386769nat) == 843104410921346467183078592839584761790nat);
    lemma_fundamental_div_mod_converse(843104410921346467183078592839584761790int * 843104410921346467183078592839584761790int, m, 52937260113951756805891658336755733305int, 12102863238963227279234404807297824362555int);
    assert(mod_pow(17, 53876, 13427688667394608761327070753331941386769nat) == 12102863238963227279234404807297824362555nat);
    lemma_fundamental_div_mod_converse(12102863238963227279234404807297824362555int * 12102863238963227279234404807297824362555int, m, 10908749987384762797177898278092012753750int, 7907295340059796796608956089082580994275int);
    lemma_fundamental_div_mod_converse(7907295340059796796608956089082580994275int * 17, m, 10int, 147134107070457929081545981084463034985int);
    assert(mod_pow(17, 107753, 13427688667394608761327070753331941386769nat) == 147134107070457929081545981084463034985nat);
    lemma_fundamental_div_mod_converse(147134107070457929081545981084463034985int * 147134107070457929081545981084463034985int, m, 1612224262838933763207811689131086513int, 6259222387853311572773259378124401403728int);
    assert(mod_pow(17, 215506, 13427688667394608761327070753331941386769nat) == 6259222387853311572773259378124401403728nat);
    lemma_fundamental_div_mod_converse(6259222387853311572773259378124401403728int * 6259222387853311572773259378124401403728int, m, 2917692379607863050899761961266377694742int, 7092238358998629487129275485508012629386int);
    lemma_fundamental_div_mod_converse(7092238358998629487129275485508012629386int * 17, m, 8int, 13146542763819831190581117226980683605410int);
    assert(mod_pow(17, 431013, 13427688667394608761327070753331941386769nat) == 13146542763819831190581117226980683605410nat);
    lemma_fundamental_div_mod_converse(13146542763819831190581117226980683605410int * 13146542763819831190581117226980683605410int, m, 12871283429486773680027892552812218897934int, 13059383131246790577696883109755752232854int);
    assert(mod_pow(17, 862026, 13427688667394608761327070753331941386769nat) == 13059383131246790577696883109755752232854nat);
    lemma_fundamental_div_mod_converse(13059383131246790577696883109755752232854int * 13059383131246790577696883109755752232854int, m, 12701179778081998909661521483838821145384int, 7915990718988780796124096806880713961020int);
    assert(mod_pow(17, 1724052, 13427688667394608761327070753331941386769nat) == 7915990718988780796124096806880713961020nat);
    lemma_fundamental_div_mod_converse(7915990718988780796124096806880713961020int * 7915990718988780796124096806880713961020int, m, 4666693622058417698626127625377330527930int, 107003507317450085953441749174992482230int);
    lemma_fundamental_div_mod_converse(107003507317450085953441749174992482230int * 17, m, 0int, 1819059624396651461208509735974872197910int);
    assert(mod_pow(17, 3448105, 13427688667394608761327070753331941386769nat) == 1819059624396651461208509735974872197910nat);
    lemma_fundamental_div_mod_converse(1819059624396651461208509735974872197910int * 1819059624396651461208509735974872197910int, m, 246429448810875045318591672341436942900int, 12935735833807364209146666169480339878000int);
    assert(mod_pow(17, 6896210, 13427688667394608761327070753331941386769nat) == 12935735833807364209146666169480339878000nat);
    lemma_fundamental_div_mod_converse(12935735833807364209146666169480339878000int * 12935735833807364209146666169480339878000int, m, 12461806771583108675951296224410601426776int, 3910511823038101270631612799699435273256int);
    assert(mod_pow(17, 13792420, 13427688667394608761327070753331941386769nat) == 3910511823038101270631612799699435273256nat);
    lemma_fundamental_div_mod_converse(3910511823038101270631612799699435273256int * 3910511823038101270631612799699435273256int, m, 1138848471759207096514506381361133888029int, 6578725818641290735336236135068360753235int);
    assert(mod_pow(17, 27584840, 13427688667394608761327070753331941386769nat) == 6578725818641290735336236135068360753235nat);
    lemma_fundamental_div_mod_converse(6578725818641290735336236135068360753235int * 6578725818641290735336236135068360753235int, m, 3223163305979086451177203429991935251921int, 6446689103249045596730925511142451731976int);
    assert(mod_pow(17, 55169680, 13427688667394608761327070753331941386769nat) == 6446689103249045596730925511142451731976nat);
    lemma_fundamental_div_mod_converse(6446689103249045596730925511142451731976int * 6446689103249045596730925511142451731976int, m, 3095082215814725451652051566950599896666int, 11101915635401914359325787701182001252422int);
    assert(mod_pow(17, 110339360, 13427688667394608761327070753331941386769nat) == 11101915635401914359325787701182001252422nat);
    lemma_fundamental_div_mod_converse(11101915635401914359325787701182001252422int * 11101915635401914359325787701182001252422int, m, 9178983355107557364743649145771805050271int, 3835306331624481415078554256903061601685int);
    lemma_fundamental_div_mod_converse(3835306331624481415078554256903061601685int * 17, m, 4int, 11489452968037749011027139354024281681569int);
    assert(mod_pow(17, 220678721, 13427688667394608761327070753331941386769nat) == 11489452968037749011027139354024281681569nat);
    lemma_fundamental_div_mod_converse(11489452968037749011027139354024281681569int * 11489452968037749011027139354024281681569int, m, 9830994207163504794929029487174203645287int, 12859979508368456067960284701036563294058int);
    lemma_fundamental_div_mod_converse(12859979508368456067960284701036563294058int * 17, m, 16int, 3776632963950012974091707864310513810682int);
    assert(mod_pow(17, 441357443, 13427688667394608761327070753331941386769nat) == 3776632963950012974091707864310513810682nat);
    lemma_fundamental_div_mod_converse(3776632963950012974091707864310513810682int * 3776632963950012974091707864310513810682int, m, 1062204888547011516812541763677260106416int, 11383238645770495067611989198209382895220int);
    assert(mod_pow(17, 882714886, 13427688667394608761327070753331941386769nat) == 11383238645770495067611989198209382895220nat);
    lemma_fundamental_div_mod_converse(11383238645770495067611989198209382895220int * 11383238645770495067611989198209382895220int, m, 9650068993720949868676757362225969130972int, 4540268288198704435866551934878029938932int);
    assert(mod_pow(17, 1765429772, 13427688667394608761327070753331941386769nat) == 4540268288198704435866551934878029938932nat);
    lemma_fundamental_div_mod_converse(4540268288198704435866551934878029938932int * 4540268288198704435866551934878029938932int, m, 1535188716348348361953992348326374163333int, 10093553530682540540248726893603518159547int);
    lemma_fundamental_div_mod_converse(10093553530682540540248726893603518159547int * 17, m, 12int, 10458146012867884048303508151276512071071int);
    assert(mod_pow(17, 3530859545, 13427688667394608761327070753331941386769nat) == 10458146012867884048303508151276512071071nat);
    lemma_fundamental_div_mod_converse(10458146012867884048303508151276512071071int * 10458146012867884048303508151276512071071int, m, 8145319774358915421468794018663469657880int, 12493700474803124043709955092132566497321int);
    lemma_fundamental_div_mod_converse(12493700474803124043709955092132566497321int * 17, m, 15int, 10977578060733977323163175266274509652922int);
    assert(mod_pow(17, 7061719091, 13427688667394608761327070753331941386769nat) == 10977578060733977323163175266274509652922nat);
    lemma_fundamental_div_mod_converse(10977578060733977323163175266274509652922int * 10977578060733977323163175266274509652922int, m, 8974531884413292482299351218215868835021int, 12481771144323718393469328139277689900935int);
    assert(mod_pow(17, 14123438182, 13427688667394608761327070753331941386769nat) == 12481771144323718393469328139277689900935nat);
    lemma_fundamental_div_mod_converse(12481771144323718393469328139277689900935int * 12481771144323718393469328139277689900935int, m, 11602489062587213670581997785223202305312int, 589278630373311181739371654987098657297int);
    lemma_fundamental_div_mod_converse(589278630373311181739371654987098657297int * 17, m, 0int, 10017736716346290089569318134780677174049int);
    assert(mod_pow(17, 28246876365, 13427688667394608761327070753331941386769nat) == 10017736716346290089569318134780677174049nat);
    lemma_fundamental_div_mod_converse(10017736716346290089569318134780677174049int * 10017736716346290089569318134780677174049int, m, 7473739628899555525270341419361371594925int, 2591434549028622344552457118802816507076int);
    lemma_fundamental_div_mod_converse(2591434549028622344552457118802816507076int * 17, m, 3int, 3771321331302753573410558759652056459985int);
    assert(mod_pow(17, 56493752731, 13427688667394608761327070753331941386769nat) == 3771321331302753573410558759652056459985nat);
    lemma_fundamental_div_mod_converse(3771321331302753573410558759652056459985int * 3771321331302753573410558759652056459985int, m, 1059219120746776578116744816244819085829int, 3094778057560924949667158639572810203724int);
    lemma_fundamental_div_mod_converse(3094778057560924949667158639572810203724int * 17, m, 3int, 12328160976351897860360484612741949303001int);
    assert(mod_pow(17, 112987505463, 13427688667394608761327070753331941386769nat) == 12328160976351897860360484612741949303001nat);
    lemma_fundamental_div_mod_converse(12328160976351897860360484612741949303001int * 12328160976351897860360484612741949303001int, m, 11318668225298921720012693961047794240326int, 7142196784977912530176335547286404959307int);
    assert(mod_pow(17, 225975010926, 13427688667394608761327070753331941386769nat) == 7142196784977912530176335547286404959307nat);
    lemma_fundamental_div_mod_converse(7142196784977912530176335547286404959307int * 7142196784977912530176335547286404959307int, m, 3798939354262415545185473765239318734182int, 7439213496880877782131985738469563082291int);
    lemma_fundamental_div_mod_converse(7439213496880877782131985738469563082291int * 17, m, 9int, 5617431440423443444300120773995099918026int);
    assert(mod_pow(17, 451950021853, 13427688667394608761327070753331941386769nat) == 5617431440423443444300120773995099918026nat);
    lemma_fundamental_div_mod_converse(5617431440423443444300120773995099918026int * 5617431440423443444300120773995099918026int, m, 2350034825016579921792344215201541145026int, 1512189059846501607092791967409333175682int);
    assert(mod_pow(17, 903900043706, 13427688667394608761327070753331941386769nat) == 1512189059846501607092791967409333175682nat);
    lemma_fundamental_div_mod_converse(1512189059846501607092791967409333175682int * 1512189059846501607092791967409333175682int, m, 170298538293645196548104665418897434743int, 1113544303528529883463397435342975049757int);
    lemma_fundamental_div_mod_converse(1113544303528529883463397435342975049757int * 17, m, 1int, 5502564492590399257550685647498634459100int);
    assert(mod_pow(17, 1807800087413, 13427688667394608761327070753331941386769nat) == 5502564492590399257550685647498634459100nat);
    lemma_fundamental_div_mod_converse(5502564492590399257550685647498634459100int * 5502564492590399257550685647498634459100int, m, 2254908997751700046862848359928437566332int, 8680349445752957974895895838270068148692int);
    assert(mod_pow(17, 3615600174826, 13427688667394608761327070753331941386769nat) == 8680349445752957974895895838270068148692nat);
    lemma_fundamental_div_mod_converse(8680349445752957974895895838270068148692int * 8680349445752957974895895838270068148692int, m, 5611424897223480380876001550756265949583int, 1965863687646262816791386710168564043537int);
    assert(mod_pow(17, 7231200349652, 13427688667394608761327070753331941386769nat) == 1965863687646262816791386710168564043537nat);
    lemma_fundamental_div_mod_converse(1965863687646262816791386710168564043537int * 1965863687646262816791386710168564043537int, m, 287809773828783612997831573640851017118int, 10319557793224937618662440488070553758627int);
    lemma_fundamental_div_mod_converse(10319557793224937618662440488070553758627int * 17, m, 13int, 872529808694025620009568503884175868662int);
    assert(mod_pow(17, 14462400699305, 13427688667394608761327070753331941386769nat) == 872529808694025620009568503884175868662nat);
    lemma_fundamental_div_mod_converse(872529808694025620009568503884175868662int * 872529808694025620009568503884175868662int, m, 56696895937739264129503217228438764406int, 11712218551608253376891838856477757126030int);
    lemma_fundamental_div_mod_converse(11712218551608253376891838856477757126030int * 17, m, 14int, 11120074033815784748582270013474691727744int);
    assert(mod_pow(17, 28924801398611, 13427688667394608761327070753331941386769nat) == 11120074033815784748582270013474691727744nat);
    lemma_fundamental_div_mod_converse(11120074033815784748582270013474691727744int * 11120074033815784748582270013474691727744int, m, 9209034375201759586663716631434925988641int, 4684176847000849119075010009211937638607int);
    lemma_fundamental_div_mod_converse(4684176847000849119075010009211937638607int * 17, m, 5int, 12492563062041391217639816389943232922474int);
    assert(mod_pow(17, 57849602797223, 13427688667394608761327070753331941386769nat) == 12492563062041391217639816389943232922474nat);
    lemma_fundamental_div_mod_converse(12492563062041391217639816389943232922474int * 12492563062041391217639816389943232922474int, m, 11622561091845920752703502753676607364150int, 10032607955956291325042632049774119349326int);
    assert(mod_pow(17, 115699205594446, 13427688667394608761327070753331941386769nat) == 10032607955956291325042632049774119349326nat);
    lemma_fundamental_div_mod_converse(10032607955956291325042632049774119349326int * 10032607955956291325042632049774119349326int, m, 7495945496735094071742304387934642286665int, 8620081483258449478986743832380280518891int);
    assert(mod_pow(17, 231398411188892, 13427688667394608761327070753331941386769nat) == 8620081483258449478986743832380280518891nat);
    lemma_fundamental_div_mod_converse(8620081483258449478986743832380280518891int * 8620081483258449478986743832380280518891int, m, 5533774770817116266216817496804920011517int, 8287969727512147003678496085935776451308int);
    assert(mod_pow(17, 462796822377784, 13427688667394608761327070753331941386769nat) == 8287969727512147003678496085935776451308nat);
    lemma_fundamental_div_mod_converse(8287969727512147003678496085935776451308int * 8287969727512147003678496085935776451308int, m, 5115581981801032085582460122680200884554int, 9197958048754039697569225302238462844838int);
    assert(mod_pow(17, 925593644755568, 13427688667394608761327070753331941386769nat) == 9197958048754039697569225302238462844838nat);
    lemma_fundamental_div_mod_converse(9197958048754039697569225302238462844838int * 9197958048754039697569225302238462844838int, m, 6300595311840420942526814252676401379027int, 5000784960676952049565569634545691352481int);
    assert(mod_pow(17, 1851187289511136, 13427688667394608761327070753331941386769nat) == 5000784960676952049565569634545691352481nat);
    lemma_fundamental_div_mod_converse(5000784960676952049565569634545691352481int * 5000784960676952049565569634545691352481int, m, 1862409148914612818177743276062878437089int, 5002493713832623352727947214353001379920int);
    lemma_fundamental_div_mod_converse(5002493713832623352727947214353001379920int * 17, m, 6int, 4476261130786944428412678124009375138026int);
    assert(mod_pow(17, 3702374579022273, 13427688667394608761327070753331941386769nat) == 4476261130786944428412678124009375138026nat);
    lemma_fundamental_div_mod_converse(4476261130786944428412678124009375138026int * 4476261130786944428412678124009375138026int, m, 1492208689619685817423223050882916188638int, 1983094870418271134306425739708829846054int);
    assert(mod_pow(17, 7404749158044546, 13427688667394608761327070753331941386769nat) == 1983094870418271134306425739708829846054nat);
    lemma_fundamental_div_mod_converse(1983094870418271134306425739708829846054int * 1983094870418271134306425739708829846054int, m, 292877304686743198465610633996511487861int, 1747356031212002045103169147117489859807int);
    lemma_fundamental_div_mod_converse(1747356031212002045103169147117489859807int * 17, m, 2int, 2849675195814817244099733994333444843181int);
    assert(mod_pow(17, 14809498316089093, 13427688667394608761327070753331941386769nat) == 2849675195814817244099733994333444843181nat);
    lemma_fundamental_div_mod_converse(2849675195814817244099733994333444843181int * 2849675195814817244099733994333444843181int, m, 604768916139748170012843665194021692544int, 21553956520183589074189568677774648425int);
    lemma_fundamental_div_mod_converse(21553956520183589074189568677774648425int * 17, m, 0int, 366417260843121014261222667522169023225int);
    assert(mod_pow(17, 29618996632178187, 13427688667394608761327070753331941386769nat) == 366417260843121014261222667522169023225nat);
    lemma_fundamental_div_mod_converse(366417260843121014261222667522169023225int * 366417260843121014261222667522169023225int, m, 9998862229342016204782522352622015901int, 6620179377559455629998235131292280386756int);
    lemma_fundamental_div_mod_converse(6620179377559455629998235131292280386756int * 17, m, 8int, 5121540079353875619353431205313235480700int);
    assert(mod_pow(17, 59237993264356375, 13427688667394608761327070753331941386769nat) == 5121540079353875619353431205313235480700nat);
    lemma_fundamental_div_mod_converse(5121540079353875619353431205313235480700int * 5121540079353875619353431205313235480700int, m, 1953439153539562652969742966399702209086int, 2276948712385639071504569178720440506866int);
    assert(mod_pow(17, 118475986528712750, 13427688667394608761327070753331941386769nat) == 2276948712385639071504569178720440506866nat);
    lemma_fundamental_div_mod_converse(2276948712385639071504569178720440506866int * 2276948712385639071504569178720440506866int, m, 386104829152296234877616334429252271423int, 10267248479252142593743005614445184139669int);
    lemma_fundamental_div_mod_converse(10267248479252142593743005614445184139669int * 17, m, 12int, 13410960138551118957706246405584833733145int);
    assert(mod_pow(17, 236951973057425501, 13427688667394608761327070753331941386769nat) == 13410960138551118957706246405584833733145nat);
    lemma_fundamental_div_mod_converse(13410960138551118957706246405584833733145int * 13410960138551118957706246405584833733145int, m, 13394252450500426725607134123456416020071int, 9851303687119591168012614178361593750426int);
    assert(mod_pow(17, 473903946114851002, 13427688667394608761327070753331941386769nat) == 9851303687119591168012614178361593750426nat);
    lemma_fundamental_div_mod_converse(9851303687119591168012614178361593750426int * 9851303687119591168012614178361593750426int, m, 7227467566440563927161852307935565602896int, 8228792276845924642883749593466572698452int);
    assert(mod_pow(17, 947807892229702004, 13427688667394608761327070753331941386769nat) == 8228792276845924642883749593466572698452nat);
    lemma_fundamental_div_mod_converse(8228792276845924642883749593466572698452int * 8228792276845924642883749593466572698452int, m, 5042790610710337461763784400311266434001int, 12555413575972286055240854902847570063535int);
    assert(mod_pow(17, 1895615784459404008, 13427688667394608761327070753331941386769nat) == 12555413575972286055240854902847570063535nat);
    lemma_fundamental_div_mod_converse(12555413575972286055240854902847570063535int * 12555413575972286055240854902847570063535int, m, 11739802282316094666317029746320670778233int, 3519431800311584740616356794767457297048int);
    lemma_fundamental_div_mod_converse(3519431800311584740616356794767457297048int * 17, m, 4int, 6119585935718505545169782497719008502740int);
    assert(mod_pow(17, 3791231568918808017, 13427688667394608761327070753331941386769nat) == 6119585935718505545169782497719008502740nat);
    lemma_fundamental_div_mod_converse(6119585935718505545169782497719008502740int * 6119585935718505545169782497719008502740int, m, 2788963383964879925083858041521930869573int, 4457720901938522538122295930804900627963int);
    assert(mod_pow(17, 7582463137837616034, 13427688667394608761327070753331941386769nat) == 4457720901938522538122295930804900627963nat);
    lemma_fundamental_div_mod_converse(4457720901938522538122295930804900627963int * 4457720901938522538122295930804900627963int, m, 1479873128711379585051669565982704174071int, 5596171221655249072806984802419225262770int);
    lemma_fundamental_div_mod_converse(5596171221655249072806984802419225262770int * 17, m, 7int, 1141090096376972908429246367803239759707int);
    assert(mod_pow(17, 15164926275675232069nat, 13427688667394608761327070753331941386769nat) == 1141090096376972908429246367803239759707nat);
    lemma_fundamental_div_mod_converse(1141090096376972908429246367803239759707int * 1141090096376972908429246367803239759707int, m, 96970270930645193084775899178972789809int, 9347471856786313192162067961042890088728int);
    assert(mod_pow(17, 30329852551350464138nat, 13427688667394608761327070753331941386769nat) == 9347471856786313192162067961042890088728nat);
    lemma_fundamental_div_mod_converse(9347471856786313192162067961042890088728int * 9347471856786313192162067961042890088728int, m, 6507093832580323808231295318028013004101int, 3530256951009936830849965903244088518315int);
    lemma_fundamental_div_mod_converse(3530256951009936830849965903244088518315int * 17, m, 4int, 6303613497590491079141137341821739264279int);
    assert(mod_pow(17, 60659705102700928277nat, 13427688667394608761327070753331941386769nat) == 6303613497590491079141137341821739264279nat);
    lemma_fundamental_div_mod_converse(6303613497590491079141137341821739264279int * 6303613497590491079141137341821739264279int, m, 2959224339442103050283422936047694544972int, 1054897194717858954726371636470089114373int);
    lemma_fundamental_div_mod_converse(1054897194717858954726371636470089114373int * 17, m, 1int, 4505563642808993469021247066659573557572int);
    assert(mod_pow(17, 121319410205401856555nat, 13427688667394608761327070753331941386769nat) == 4505563642808993469021247066659573557572nat);
    lemma_fundamental_div_mod_converse(4505563642808993469021247066659573557572int * 4505563642808993469021247066659573557572int, m, 1511809235545904403424461939096292051780int, 10178476113185802725329852718498843636364int);
    assert(mod_pow(17, 242638820410803713110nat, 13427688667394608761327070753331941386769nat) == 10178476113185802725329852718498843636364nat);
    lemma_fundamental_div_mod_converse(10178476113185802725329852718498843636364int * 10178476113185802725329852718498843636364int, m, 7715503282278279886990781224414778980218int, 11865396673845209434780148938664125204854int);
    assert(mod_pow(17, 485277640821607426220nat, 13427688667394608761327070753331941386769nat) == 11865396673845209434780148938664125204854nat);
    lemma_fundamental_div_mod_converse(11865396673845209434780148938664125204854int * 11865396673845209434780148938664125204854int, m, 10484875075303198925027406235927487621464int, 5504646808415413105525303439525975151500int);
    assert(mod_pow(17, 970555281643214852440nat, 13427688667394608761327070753331941386769nat) == 5504646808415413105525303439525975151500nat);
    lemma_fundamental_div_mod_converse(5504646808415413105525303439525975151500int * 5504646808415413105525303439525975151500int, m, 2256615954983811905209997274665657619473int, 2087971777187712790191322799229033297263int);
    lemma_fundamental_div_mod_converse(2087971777187712790191322799229033297263int * 17, m, 2int, 8640142877401899910598346080229683279933int);
    assert(mod_pow(17, 1941110563286429704881nat, 13427688667394608761327070753331941386769nat) == 8640142877401899910598346080229683279933nat);
    lemma_fundamental_div_mod_converse(8640142877401899910598346080229683279933int * 8640142877401899910598346080229683279933int, m, 5559562095239106910467419968586768538715int, 198056719757672216221766120304075222654int);
    lemma_fundamental_div_mod_converse(198056719757672216221766120304075222654int * 17, m, 0int, 3366964235880427675770024045169278785118int);
    assert(mod_pow(17, 3882221126572859409763nat, 13427688667394608761327070753331941386769nat) == 3366964235880427675770024045169278785118nat);
    lemma_fundamental_div_mod_converse(3366964235880427675770024045169278785118int * 3366964235880427675770024045169278785118int, m, 844259086318054873704628382832001309058int, 6338276873446280347513504956690137220322int);
    assert(mod_pow(17, 7764442253145718819526nat, 13427688667394608761327070753331941386769nat) == 6338276873446280347513504956690137220322nat);
    lemma_fundamental_div_mod_converse(6338276873446280347513504956690137220322int * 6338276873446280347513504956690137220322int, m, 2991859188842730195515593180220487060127int, 6877402720991039219589632983600504524021int);
    lemma_fundamental_div_mod_converse(6877402720991039219589632983600504524021int * 17, m, 8int, 9494336917690796642407194694553045814205int);
    assert(mod_pow(17, 15528884506291437639053nat, 13427688667394608761327070753331941386769nat) == 9494336917690796642407194694553045814205nat);
    lemma_fundamental_div_mod_converse(9494336917690796642407194694553045814205int * 9494336917690796642407194694553045814205int, m, 6713175717687892015767568464632051572341int, 11451249855035732365711158128272916025796int);
    lemma_fundamental_div_mod_converse(11451249855035732365711158128272916025796int * 17, m, 14int, 6683606192082927558510697633992393023766int);
    assert(mod_pow(17, 31057769012582875278107nat, 13427688667394608761327070753331941386769nat) == 6683606192082927558510697633992393023766nat);
    lemma_fundamental_div_mod_converse(6683606192082927558510697633992393023766int * 6683606192082927558510697633992393023766int, m, 3326752119247395536750236798033317217954int, 8768954647533330440468416820488855972130int);
    assert(mod_pow(17, 62115538025165750556214nat, 13427688667394608761327070753331941386769nat) == 8768954647533330440468416820488855972130nat);
    lemma_fundamental_div_mod_converse(8768954647533330440468416820488855972130int * 8768954647533330440468416820488855972130int, m, 5726567506529501946452981721254257870674int, 5340170300811260105597857527706720024594int);
    assert(mod_pow(17, 124231076050331501112428nat, 13427688667394608761327070753331941386769nat) == 5340170300811260105597857527706720024594nat);
    lemma_fundamental_div_mod_converse(5340170300811260105597857527706720024594int * 5340170300811260105597857527706720024594int, m, 2123777185191462643200121193265346292767int, 677307201462597260321975875052910665013int);
    lemma_fundamental_div_mod_converse(677307201462597260321975875052910665013int * 17, m, 0int, 11514222424864153425473589875899481305221int);
    assert(mod_pow(17, 248462152100663002224857nat, 13427688667394608761327070753331941386769nat) == 11514222424864153425473589875899481305221nat);
    lemma_fundamental_div_mod_converse(11514222424864153425473589875899481305221int * 11514222424864153425473589875899481305221int, m, 9873428058484222231726636133699736166191int, 3481947146459516803788663714209769331962int);
    lemma_fundamental_div_mod_converse(3481947146459516803788663714209769331962int * 17, m, 4int, 5482346820233350619099000128238313096278int);
    assert(mod_pow(17, 496924304201326004449715nat, 13427688667394608761327070753331941386769nat) == 5482346820233350619099000128238313096278nat);
    lemma_fundamental_div_mod_converse(5482346820233350619099000128238313096278int * 5482346820233350619099000128238313096278int, m, 2238369342767503882240357247529267231440int, 8388923501459306203838940987024420635924int);
    assert(mod_pow(17, 993848608402652008899430nat, 13427688667394608761327070753331941386769nat) == 8388923501459306203838940987024420635924nat);
    lemma_fundamental_div_mod_converse(8388923501459306203838940987024420635924int * 8388923501459306203838940987024420635924int, m, 5240964342896924552948471963147350485884int, 3281722267398232611449668610511640464980int);
    assert(mod_pow(17, 1987697216805304017798860nat, 13427688667394608761327070753331941386769nat) == 3281722267398232611449668610511640464980nat);
    lemma_fundamental_div_mod_converse(3281722267398232611449668610511640464980int * 3281722267398232611449668610511640464980int, m, 802051738545935137369284330467188802465int, 13077060331871904835660386116770100814815int);
    assert(mod_pow(17, 3975394433610608035597720nat, 13427688667394608761327070753331941386769nat) == 13077060331871904835660386116770100814815nat);
    lemma_fundamental_div_mod_converse(13077060331871904835660386116770100814815int * 13077060331871904835660386116770100814815int, m, 12735587721710181899004177369005078190931int, 12210141804827822477010048514813024292286int);
    lemma_fundamental_div_mod_converse(12210141804827822477010048514813024292286int * 17, m, 15int, 6157080671153850689264763451842292167327int);
    assert(mod_pow(17, 7950788867221216071195441nat, 13427688667394608761327070753331941386769nat) == 6157080671153850689264763451842292167327nat);
    lemma_fundamental_div_mod_converse(6157080671153850689264763451842292167327int * 6157080671153850689264763451842292167327int, m, 2823244069036939312155799842714378000525int, 6794849544580285398639166099881056271204int);
    lemma_fundamental_div_mod_converse(6794849544580285398639166099881056271204int * 17, m, 8int, 8090932918707981686249257671322425516316int);
    assert(mod_pow(17, 15901577734442432142390883nat, 13427688667394608761327070753331941386769nat) == 8090932918707981686249257671322425516316nat);
    lemma_fundamental_div_mod_converse(8090932918707981686249257671322425516316int * 8090932918707981686249257671322425516316int, m, 4875239299671249016494302689052610994830int, 9930255044070455474858838229472292807586int);
    lemma_fundamental_div_mod_converse(9930255044070455474858838229472292807586int * 17, m, 12int, 7682071740462437936675400861045681087734int);
    assert(mod_pow(17, 31803155468884864284781767nat, 13427688667394608761327070753331941386769nat) == 7682071740462437936675400861045681087734nat);
    lemma_fundamental_div_mod_converse(7682071740462437936675400861045681087734int * 7682071740462437936675400861045681087734int, m, 4394965335241287999612128849208575568947int, 7045849326453172645501670150161052192513int);
    assert(mod_pow(17, 63606310937769728569563534nat, 13427688667394608761327070753331941386769nat) == 7045849326453172645501670150161052192513nat);
    lemma_fundamental_div_mod_converse(7045849326453172645501670150161052192513int * 7045849326453172645501670150161052192513int, m, 3697136116331561675954171126934832457818int, 3453579941682126377527171320464797445127int);
    assert(mod_pow(17, 127212621875539457139127068nat, 13427688667394608761327070753331941386769nat) == 3453579941682126377527171320464797445127nat);
    lemma_fundamental_div_mod_converse(3453579941682126377527171320464797445127int * 3453579941682126377527171320464797445127int, m, 888255209740677713518875276447519840141int, 644869537192682814998504516541843551700int);
    assert(mod_pow(17, 254425243751078914278254136nat, 13427688667394608761327070753331941386769nat) == 644869537192682814998504516541843551700nat);
    lemma_fundamental_div_mod_converse(644869537192682814998504516541843551700int * 644869537192682814998504516541843551700int, m, 30970089514280801709296314016814798742int, 5309178646375716947482399114209456245402int);
    lemma_fundamental_div_mod_converse(5309178646375716947482399114209456245402int * 17, m, 6int, 9689904984019535539238360421569107851220int);
    assert(mod_pow(17, 508850487502157828556508273nat, 13427688667394608761327070753331941386769nat) == 9689904984019535539238360421569107851220nat);
    lemma_fundamental_div_mod_converse(9689904984019535539238360421569107851220int * 9689904984019535539238360421569107851220int, m, 6992585315693430938866328220747105432623int, 5803131915576173670982963893713342323313int);
    assert(mod_pow(17, 1017700975004315657113016546nat, 13427688667394608761327070753331941386769nat) == 5803131915576173670982963893713342323313nat);
    lemma_fundamental_div_mod_converse(5803131915576173670982963893713342323313int * 5803131915576173670982963893713342323313int, m, 2507977423646437080300418003526962990980int, 2709394480633900995604308998747384952349int);
    lemma_fundamental_div_mod_converse(2709394480633900995604308998747384952349int * 17, m, 3int, 5776640168592490641292040718709720029626int);
    assert(mod_pow(17, 2035401950008631314226033093nat, 13427688667394608761327070753331941386769nat) == 5776640168592490641292040718709720029626nat);
    lemma_fundamental_div_mod_converse(5776640168592490641292040718709720029626int * 5776640168592490641292040718709720029626int, m, 2485131467072584313270030794854375798420int, 8325564771144552532116681192923918594896int);
    assert(mod_pow(17, 4070803900017262628452066186nat, 13427688667394608761327070753331941386769nat) == 8325564771144552532116681192923918594896nat);
    lemma_fundamental_div_mod_converse(8325564771144552532116681192923918594896int * 8325564771144552532116681192923918594896int, m, 5162096804257566031720786015587670688901int, 12959568631991659311734090633307440699947int);
    lemma_fundamental_div_mod_converse(12959568631991659311734090633307440699947int * 17, m, 16int, 5469648065544468118246408712915429710795int);
    assert(mod_pow(17, 8141607800034525256904132373nat, 13427688667394608761327070753331941386769nat) == 5469648065544468118246408712915429710795nat);
    lemma_fundamental_div_mod_converse(5469648065544468118246408712915429710795int * 5469648065544468118246408712915429710795int, m, 2228011886629419808645384748430137985184int, 7140917506431499907572525418216803901529int);
    lemma_fundamental_div_mod_converse(7140917506431499907572525418216803901529int * 17, m, 9int, 546399602784019576789295329698193845072int);
    assert(mod_pow(17, 16283215600069050513808264747nat, 13427688667394608761327070753331941386769nat) == 546399602784019576789295329698193845072nat);
    lemma_fundamental_div_mod_converse(546399602784019576789295329698193845072int * 546399602784019576789295329698193845072int, m, 22234096523810966071005191990185960828int, 8257656574208406058169300312982907200452int);
    lemma_fundamental_div_mod_converse(8257656574208406058169300312982907200452int * 17, m, 10int, 6103275087596815375607397787390008539994int);
    assert(mod_pow(17, 32566431200138101027616529495nat, 13427688667394608761327070753331941386769nat) == 6103275087596815375607397787390008539994nat);
    lemma_fundamental_div_mod_converse(6103275087596815375607397787390008539994int * 6103275087596815375607397787390008539994int, m, 2774116061041171881506027769585463582581int, 6263864732583766840351712465567405249247int);
    lemma_fundamental_div_mod_converse(6263864732583766840351712465567405249247int * 17, m, 7int, 12491879782161774956689616641322299529816int);
    assert(mod_pow(17, 65132862400276202055233058991nat, 13427688667394608761327070753331941386769nat) == 12491879782161774956689616641322299529816nat);
    lemma_fundamental_div_mod_converse(12491879782161774956689616641322299529816int * 12491879782161774956689616641322299529816int, m, 11621289736252137919604225044992294636355int, 3143257816699410459260797205495409606861int);
    lemma_fundamental_div_mod_converse(3143257816699410459260797205495409606861int * 17, m, 3int, 13152316881706151523452340233426139156330int);
    assert(mod_pow(17, 130265724800552404110466117983nat, 13427688667394608761327070753331941386769nat) == 13152316881706151523452340233426139156330nat);
    lemma_fundamental_div_mod_converse(13152316881706151523452340233426139156330int * 13152316881706151523452340233426139156330int, m, 12882592353876552800399091532094349534862int, 4182735218175645685388483700541788028022int);
    lemma_fundamental_div_mod_converse(4182735218175645685388483700541788028022int * 17, m, 5int, 3968055372012932844968869142550689542529int);
    assert(mod_pow(17, 260531449601104808220932235967nat, 13427688667394608761327070753331941386769nat) == 3968055372012932844968869142550689542529nat);
    lemma_fundamental_div_mod_converse(3968055372012932844968869142550689542529int * 3968055372012932844968869142550689542529int, m, 1172611595739045895812602941098015976238int, 1998451235427554724312238565840228120819int);
    assert(mod_pow(17, 521062899202209616441864471934nat, 13427688667394608761327070753331941386769nat) == 1998451235427554724312238565840228120819nat);
    lemma_fundamental_div_mod_converse(1998451235427554724312238565840228120819int * 1998451235427554724312238565840228120819int, m, 297430737285394865792785464395331033358int, 4474452383079361202964628649351742390459int);
    assert(mod_pow(17, 1042125798404419232883728943868nat, 13427688667394608761327070753331941386769nat) == 4474452383079361202964628649351742390459nat);
    lemma_fundamental_div_mod_converse(4474452383079361202964628649351742390459int * 4474452383079361202964628649351742390459int, m, 1491003003149701466655557704509202335454int, 13186276237941265692528704413197319022555int);
    lemma_fundamental_div_mod_converse(13186276237941265692528704413197319022555int * 17, m, 16int, 9323677366687776591754842971043361195131int);
    assert(mod_pow(17, 2084251596808838465767457887737nat, 13427688667394608761327070753331941386769nat) == 9323677366687776591754842971043361195131nat);
    lemma_fundamental_div_mod_converse(9323677366687776591754842971043361195131int * 9323677366687776591754842971043361195131int, m, 6474007686011775468393237924648314156115int, 3091114209850564895452209451401596664726int);
    assert(mod_pow(17, 4168503193617676931534915775474nat, 13427688667394608761327070753331941386769nat) == 3091114209850564895452209451401596664726nat);
    lemma_fundamental_div_mod_converse(3091114209850564895452209451401596664726int * 3091114209850564895452209451401596664726int, m, 711588367515676713109868776305634931613int, 13396911887205962274358009593379554626679int);
    assert(mod_pow(17, 8337006387235353863069831550948nat, 13427688667394608761327070753331941386769nat) == 13396911887205962274358009593379554626679nat);
    lemma_fundamental_div_mod_converse(13396911887205962274358009593379554626679int * 13396911887205962274358009593379554626679int, m, 13366205648584240875418298439628652419963int, 7661018338045829849078826119229058899494int);
    assert(mod_pow(17, 16674012774470707726139663101896nat, 13427688667394608761327070753331941386769nat) == 7661018338045829849078826119229058899494nat);
    lemma_fundamental_div_mod_converse(7661018338045829849078826119229058899494int * 7661018338045829849078826119229058899494int, m, 4370908756500266419393234338329374479509int, 2671896287282188821279751315867359239615int);
    lemma_fundamental_div_mod_converse(2671896287282188821279751315867359239615int * 17, m, 3int, 5139170881613383677774560109749282913148int);
    assert(mod_pow(17, 33348025548941415452279326203793nat, 13427688667394608761327070753331941386769nat) == 5139170881613383677774560109749282913148nat);
    lemma_fundamental_div_mod_converse(5139170881613383677774560109749282913148int * 5139170881613383677774560109749282913148int, m, 1966911655805276994708158126245481359894int, 2017001930661196287273472094398972427418int);
    assert(mod_pow(17, 66696051097882830904558652407586nat, 13427688667394608761327070753331941386769nat) == 2017001930661196287273472094398972427418nat);
    lemma_fundamental_div_mod_converse(2017001930661196287273472094398972427418int * 2017001930661196287273472094398972427418int, m, 302978188507581029085825731213982343089int, 5875411698732551087249619558768674957283int);
    assert(mod_pow(17, 133392102195765661809117304815172nat, 13427688667394608761327070753331941386769nat) == 5875411698732551087249619558768674957283nat);
    lemma_fundamental_div_mod_converse(5875411698732551087249619558768674957283int * 5875411698732551087249619558768674957283int, m, 2570841749811091667969622272129636218174int, 5966896995551834514101261555855673802283int);
    lemma_fundamental_div_mod_converse(5966896995551834514101261555855673802283int * 17, m, 7int, 7443428252618925410431951176222864931428int);
    assert(mod_pow(17, 266784204391531323618234609630345nat, 13427688667394608761327070753331941386769nat) == 7443428252618925410431951176222864931428nat);
    lemma_fundamental_div_mod_converse(7443428252618925410431951176222864931428int * 7443428252618925410431951176222864931428int, m, 4126147509393800820570377967022905050703int, 8509470809464949348637254040039063770577int);
    assert(mod_pow(17, 533568408783062647236469219260690nat, 13427688667394608761327070753331941386769nat) == 8509470809464949348637254040039063770577nat);
    lemma_fundamental_div_mod_converse(8509470809464949348637254040039063770577int * 8509470809464949348637254040039063770577int, m, 5392669971040226344226339369542688764935int, 10189210451872836559827024299212730767914int);
    assert(mod_pow(17, 1067136817566125294472938438521380nat, 13427688667394608761327070753331941386769nat) == 10189210451872836559827024299212730767914nat);
    lemma_fundamental_div_mod_converse(10189210451872836559827024299212730767914int * 10189210451872836559827024299212730767914int, m, 7731785581583563823432476494922191831079int, 2228308819471618239943388540873478317645int);
    lemma_fundamental_div_mod_converse(2228308819471618239943388540873478317645int * 17, m, 2int, 11025872596228292556383463688185248626427int);
    assert(mod_pow(17, 2134273635132250588945876877042761nat, 13427688667394608761327070753331941386769nat) == 11025872596228292556383463688185248626427nat);
    lemma_fundamental_div_mod_converse(11025872596228292556383463688185248626427int * 11025872596228292556383463688185248626427int, m, 9053670331473836729795547246876798071036int, 4603608702452457143344053247016190263645int);
    assert(mod_pow(17, 4268547270264501177891753754085522nat, 13427688667394608761327070753331941386769nat) == 4603608702452457143344053247016190263645nat);
    lemma_fundamental_div_mod_converse(4603608702452457143344053247016190263645int * 4603608702452457143344053247016190263645int, m, 1578321750693981628487609722283063720205int, 7746361640076193555840938855054703718380int);
    assert(mod_pow(17, 8537094540529002355783507508171044nat, 13427688667394608761327070753331941386769nat) == 7746361640076193555840938855054703718380nat);
    lemma_fundamental_div_mod_converse(7746361640076193555840938855054703718380int * 7746361640076193555840938855054703718380int, m, 4468834521353777975653866967308753864764int, 235598419039843290502013649547904916884int);
    assert(mod_pow(17, 17074189081058004711567015016342088nat, 13427688667394608761327070753331941386769nat) == 235598419039843290502013649547904916884nat);
    lemma_fundamental_div_mod_converse(235598419039843290502013649547904916884int * 235598419039843290502013649547904916884int, m, 4133743075891825208254936338588411973int, 3552338472165945171352722910431844884219int);
    lemma_fundamental_div_mod_converse(3552338472165945171352722910431844884219int * 17, m, 4int, 6678999357242632867688006464013597484647int);
    assert(mod_pow(17, 34148378162116009423134030032684177nat, 13427688667394608761327070753331941386769nat) == 6678999357242632867688006464013597484647nat);
    lemma_fundamental_div_mod_converse(6678999357242632867688006464013597484647int * 6678999357242632867688006464013597484647int, m, 3322167613430603122335010277937713306367int, 11908642222806668003651343333519263456386int);
    assert(mod_pow(17, 68296756324232018846268060065368354nat, 13427688667394608761327070753331941386769nat) == 11908642222806668003651343333519263456386nat);
    lemma_fundamental_div_mod_converse(11908642222806668003651343333519263456386int * 11908642222806668003651343333519263456386int, m, 10561442337814526341276848689406117224492int, 8410725602545126412234093208283552634648int);
    assert(mod_pow(17, 136593512648464037692536120130736708nat, 13427688667394608761327070753331941386769nat) == 8410725602545126412234093208283552634648nat);
    lemma_fundamental_div_mod_converse(8410725602545126412234093208283552634648int * 8410725602545126412234093208283552634648int, m, 5268241386403391321631980623209364947983int, 6687856791112296215747528723525600646977int);
    assert(mod_pow(17, 273187025296928075385072240261473416nat, 13427688667394608761327070753331941386769nat) == 6687856791112296215747528723525600646977nat);
    lemma_fundamental_div_mod_converse(6687856791112296215747528723525600646977int * 6687856791112296215747528723525600646977int, m, 3330984919767683191697682146677195870520int, 7431016332989268081169116635992014088649int);
    lemma_fundamental_div_mod_converse(7431016332989268081169116635992014088649int * 17, m, 9int, 5478079654266078527931346031876767026112int);
    assert(mod_pow(17, 546374050593856150770144480522946833nat, 13427688667394608761327070753331941386769nat) == 5478079654266078527931346031876767026112nat);
    lemma_fundamental_div_mod_converse(5478079654266078527931346031876767026112int * 5478079654266078527931346031876767026112int, m, 2234886244521985293946570098371952514632int, 1920086931487882141303116244117646132536int);
    lemma_fundamental_div_mod_converse(1920086931487882141303116244117646132536int * 17, m, 2int, 5786100500504778879498834643336101479574int);
    assert(mod_pow(17, 1092748101187712301540288961045893667nat, 13427688667394608761327070753331941386769nat) == 5786100500504778879498834643336101479574nat);
    lemma_fundamental_div_mod_converse(5786100500504778879498834643336101479574int * 5786100500504778879498834643336101479574int, m, 2493277870169566343757580194241263955799int, 9383698052047050588989176837537159798045int);
    lemma_fundamental_div_mod_converse(9383698052047050588989176837537159798045int * 17, m, 11int, 11818291543459163638218227951480361312306int);
    assert(mod_pow(17, 2185496202375424603080577922091787335nat, 13427688667394608761327070753331941386769nat) == 11818291543459163638218227951480361312306nat);
    lemma_fundamental_div_mod_converse(11818291543459163638218227951480361312306int * 11818291543459163638218227951480361312306int, m, 10401791288574693787846283711962292496509int, 6955998978688866594937093567741915748215int);
    assert(mod_pow(17, 4370992404750849206161155844183574670nat, 13427688667394608761327070753331941386769nat) == 6955998978688866594937093567741915748215nat);
    lemma_fundamental_div_mod_converse(6955998978688866594937093567741915748215int * 6955998978688866594937093567741915748215int, m, 3603443823434203595652893455397852630427int, 8039378242685159871018390959790451065862int);
    assert(mod_pow(17, 8741984809501698412322311688367149340nat, 13427688667394608761327070753331941386769nat) == 8039378242685159871018390959790451065862nat);
    lemma_fundamental_div_mod_converse(8039378242685159871018390959790451065862int * 8039378242685159871018390959790451065862int, m, 4813308092695008843761350404730413826237int, 2359896843109853580061841305010684944791int);
    assert(mod_pow(17, 17483969619003396824644623376734298680nat, 13427688667394608761327070753331941386769nat) == 2359896843109853580061841305010684944791nat);
    lemma_fundamental_div_mod_converse(2359896843109853580061841305010684944791int * 2359896843109853580061841305010684944791int, m, 414748453592232033021569096158208745599int, 10587845683827788959210865271070732454050int);
    lemma_fundamental_div_mod_converse(10587845683827788959210865271070732454050int * 17, m, 13int, 5433423948942498409332789814887213690853int);
    assert(mod_pow(17, 34967939238006793649289246753468597361nat, 13427688667394608761327070753331941386769nat) == 5433423948942498409332789814887213690853nat);
    lemma_fundamental_div_mod_converse(5433423948942498409332789814887213690853int * 5433423948942498409332789814887213690853int, m, 2198598473661968122021423345144403734772int, 2803403752634227381240254325162109835941int);
    assert(mod_pow(17, 69935878476013587298578493506937194722nat, 13427688667394608761327070753331941386769nat) == 2803403752634227381240254325162109835941nat);
    lemma_fundamental_div_mod_converse(2803403752634227381240254325162109835941int * 2803403752634227381240254325162109835941int, m, 585288562682215809676654335837237538231int, 9298836427670985905862247505356140289842int);
    lemma_fundamental_div_mod_converse(9298836427670985905862247505356140289842int * 17, m, 11int, 10375643929066064025060429304403029672855int);
    assert(mod_pow(17, 139871756952027174597156987013874389445nat, 13427688667394608761327070753331941386769nat) == 10375643929066064025060429304403029672855nat);
    lemma_fundamental_div_mod_converse(10375643929066064025060429304403029672855int * 10375643929066064025060429304403029672855int, m, 8017313300104515192924838028982880159988int, 6215541726389898727062117211455017452253int);
    lemma_fundamental_div_mod_converse(6215541726389898727062117211455017452253int * 17, m, 7int, 11670388676866017030766497321411706980918int);
    assert(mod_pow(17, 279743513904054349194313974027748778891nat, 13427688667394608761327070753331941386769nat) == 11670388676866017030766497321411706980918nat);
    lemma_fundamental_div_mod_converse(11670388676866017030766497321411706980918int * 11670388676866017030766497321411706980918int, m, 10143068940810437082211108079834376486082int, 3326975028725030244095425118110108673666int);
    assert(mod_pow(17, 559487027808108698388627948055497557782nat, 13427688667394608761327070753331941386769nat) == 3326975028725030244095425118110108673666nat);
    lemma_fundamental_div_mod_converse(3326975028725030244095425118110108673666int * 3326975028725030244095425118110108673666int, m, 824323762334266402532083741673367649417int, 3576773325605669670972790009624887515883int);
    assert(mod_pow(17, 1118974055616217396777255896110995115564nat, 13427688667394608761327070753331941386769nat) == 3576773325605669670972790009624887515883nat);
    lemma_fundamental_div_mod_converse(3576773325605669670972790009624887515883int * 3576773325605669670972790009624887515883int, m, 952755737763656634059094093885628757532int, 2685568617321800533408078349748043375581int);
    assert(mod_pow(17, 2237948111232434793554511792221990231128nat, 13427688667394608761327070753331941386769nat) == 2685568617321800533408078349748043375581nat);
    lemma_fundamental_div_mod_converse(2685568617321800533408078349748043375581int * 2685568617321800533408078349748043375581int, m, 537119900303969067103905705758386238749int, 2685568617321800533408078349748043375580int);
    assert(mod_pow(17, 4475896222464869587109023584443980462256nat, 13427688667394608761327070753331941386769nat) == 2685568617321800533408078349748043375580nat);
}

#[verifier::rlimit(100)]
pub proof fn lemma_pow_p134276_41_digits_by_7()
    ensures
        mod_pow(17, 1918241238199229823046724393333134483824nat, 13427688667394608761327070753331941386769nat) == 3365167042067484594214394565332554156896nat,
{
    let m = 13427688667394608761327070753331941386769int;
    lemma_fundamental_div_mod_converse(1, m, 0, 1);
    assert(mod_pow(17, 0, 13427688667394608761327070753331941386769nat) == 1);
    lemma_fundamental_div_mod_converse(1int * 1int, m, 0int, 1int);
    lemma_fundamental_div_mod_converse(1int * 17, m, 0int, 17int);
    assert(mod_pow(17, 1, 13427688667394608761327070753331941386769nat) == 17);
    lemma_fundamental_div_mod_converse(17int * 17int, m, 0int, 289int);
    assert(mod_pow(17, 2, 13427688667394608761327070753331941386769nat) == 289);
    lemma_fundamental_div_mod_converse(289int * 289int, m, 0int, 83521int);
    lemma_fundamental_div_mod_converse(83521int * 17, m, 0int, 1419857int);
    assert(mod_pow(17, 5, 13427688667394608761327070753331941386769nat) == 1419857);
    lemma_fundamental_div_mod_converse(1419857int * 1419857int, m, 0int, 2015993900449int);
    lemma_fundamental_div_mod_converse(2015993900449int * 17, m, 0int, 34271896307633int);
    assert(mod_pow(17, 11, 13427688667394608761327070753331941386769nat) == 34271896307633);
    lemma_fundamental_div_mod_converse(34271896307633int * 34271896307633int, m, 0int, 1174562876521148458974062689int);
    assert(mod_pow(17, 22, 13427688667394608761327070753331941386769nat) == 1174562876521148458974062689nat);
    lemma_fundamental_div_mod_converse(1174562876521148458974062689int * 1174562876521148458974062689int, m, 102742771676826int, 6377265037523078970299103290888161595527int);
    lemma_fundamental_div_mod_converse(6377265037523078970299103290888161595527int * 17, m, 8int, 991996298735472404468189918443216029807int);
    assert(mod_pow(17, 45, 13427688667394608761327070753331941386769nat) == 991996298735472404468189918443216029807nat);
    lemma_fundamental_div_mod_converse(991996298735472404468189918443216029807int * 991996298735472404468189918443216029807int, m, 73285632477790710822785703332646209652int, 11386781354218259742269105031543119562861int);
    assert(mod_pow(17, 90, 13427688667394608761327070753331941386769nat) == 11386781354218259742269105031543119562861nat);
    lemma_fundamental_div_mod_converse(11386781354218259742269105031543119562861int * 11386781354218259742269105031543119562861int, m, 9656076546041224418428222685657642312679int, 3176188094240748923085233623684158961170int);
    assert(mod_pow(17, 180, 13427688667394608761327070753331941386769nat) == 3176188094240748923085233623684158961170nat);
    lemma_fundamental_div_mod_converse(3176188094240748923085233623684158961170int * 3176188094240748923085233623684158961170int, m, 751296150803152406668248341609155618222int, 4908410567087063103066699903475361664182int);
    assert(mod_pow(17, 360, 13427688667394608761327070753331941386769nat) == 4908410567087063103066699903475361664182nat);
    lemma_fundamental_div_mod_converse(4908410567087063103066699903475361664182int * 4908410567087063103066699903475361664182int, m, 1794239864496846516640467169949052005812int, 1935354123443079013688318143744213827696int);
    lemma_fundamental_div_mod_converse(1935354123443079013688318143744213827696int * 17, m, 2int, 6045642763743125710047266936987752297294int);
    assert(mod_pow(17, 721, 13427688667394608761327070753331941386769nat) == 6045642763743125710047266936987752297294nat);
    lemma_fundamental_div_mod_converse(6045642763743125710047266936987752297294int * 6045642763743125710047266936987752297294int, m, 2721972286678837785346775556294123928018int, 3208650503719209666723562511334106128594int);
    lemma_fundamental_div_mod_converse(3208650503719209666723562511334106128594int * 17, m, 4int, 836303893648129288992279679352038639022int);
    assert(mod_pow(17, 1443, 13427688667394608761327070753331941386769nat) == 836303893648129288992279679352038639022nat);
    lemma_fundamental_div_mod_converse(836303893648129288992279679352038639022int * 836303893648129288992279679352038639022int, m, 52086715730111414426894244272997096528int, 10545184907634440694715733215047146078452int);
    assert(mod_pow(17, 2886, 13427688667394608761327070753331941386769nat) == 10545184907634440694715733215047146078452nat);
    lemma_fundamental_div_mod_converse(10545184907634440694715733215047146078452int * 10545184907634440694715733215047146078452int, m, 8281464330210572430208229407979323439987int, 6806327380947315813564222114729811384301int);
    assert(mod_pow(17, 5772, 13427688667394608761327070753331941386769nat) == 6806327380947315813564222114729811384301nat);
    lemma_fundamental_div_mod_converse(6806327380947315813564222114729811384301int * 6806327380947315813564222114729811384301int, m, 3450042189995298514357155131210677797290int, 777097084149166800019719980461039202591int);
    assert(mod_pow(17, 11544, 13427688667394608761327070753331941386769nat) == 777097084149166800019719980461039202591nat);
    lemma_fundamental_div_mod_converse(777097084149166800019719980461039202591int * 777097084149166800019719980461039202591int, m, 44972734560005910181258653270241321529int, 7930984981658014907567700161121665663480int);
    lemma_fundamental_div_mod_converse(7930984981658014907567700161121665663480int * 17, m, 10int, 549858014240165815380195205748902411470int);
    assert(mod_pow(17, 23089, 13427688667394608761327070753331941386769nat) == 549858014240165815380195205748902411470nat);
    lemma_fundamental_div_mod_converse(549858014240165815380195205748902411470int * 549858014240165815380195205748902411470int, m, 22516446673230959375337629615474036072int, 5904780428282738394348886634527978029532int);
    lemma_fundamental_div_mod_converse(5904780428282738394348886634527978029532int * 17, m, 7int, 6387446609044291374641577513652036794661int);
    assert(mod_pow(17, 46179, 13427688667394608761327070753331941386769nat) == 6387446609044291374641577513652036794661nat);
    lemma_fundamental_div_mod_converse(6387446609044291374641577513652036794661int * 6387446609044291374641577513652036794661int, m, 3038458456551911514068382775287200337588int, 4856000796678322388636551699305401531749int);
    lemma_fundamental_div_mod_converse(4856000796678322388636551699305401531749int * 17, m, 6int, 1985881539163828038858954368200177719119int);
    assert(mod_pow(17, 92359, 13427688667394608761327070753331941386769nat) == 1985881539163828038858954368200177719119nat);
    lemma_fundamental_div_mod_converse(1985881539163828038858954368200177719119int * 1985881539163828038858954368200177719119int, m, 293700992425295832343899134678535971899int, 2363818924665810623710343337879983731830int);
    lemma_fundamental_div_mod_converse(2363818924665810623710343337879983731830int * 17, m, 2int, 13329544384529563080421695237295840667572int);
    assert(mod_pow(17, 184719, 13427688667394608761327070753331941386769nat) == 13329544384529563080421695237295840667572nat);
    lemma_fundamental_div_mod_converse(13329544384529563080421695237295840667572int * 13329544384529563080421695237295840667572int, m, 13232117447776546601525141644777662459972int, 13358532808503092418021947164148979464716int);
    lemma_fundamental_div_mod_converse(13358532808503092418021947164148979464716int * 17, m, 16int, 12252039066238830925139969737221588711868int);
    assert(mod_pow(17, 369439, 13427688667394608761327070753331941386769nat) == 12252039066238830925139969737221588711868nat);
    lemma_fundamental_div_mod_converse(12252039066238830925139969737221588711868int * 12252039066238830925139969737221588711868int, m, 11179322443269679468523093906090979074862int, 4512671815075878299156673582666576748546int);
    lemma_fundamental_div_mod_converse(4512671815075878299156673582666576748546int * 17, m, 5int, 9576977519316887279028097138672097791437int);
    assert(mod_pow(17, 738879, 13427688667394608761327070753331941386769nat) == 9576977519316887279028097138672097791437nat);
    lemma_fundamental_div_mod_converse(9576977519316887279028097138672097791437int * 9576977519316887279028097138672097791437int, m, 6830549968604335767582116485189668985006int, 944634030960512598103753473532842739355int);
    lemma_fundamental_div_mod_converse(944634030960512598103753473532842739355int * 17, m, 1int, 2631089858934105406436738296726385182266int);
    assert(mod_pow(17, 1477759, 13427688667394608761327070753331941386769nat) == 2631089858934105406436738296726385182266nat);
    lemma_fundamental_div_mod_converse(2631089858934105406436738296726385182266int * 2631089858934105406436738296726385182266int, m, 515549177320112680042108172428835755143int, 10904479366645596763359406282311296991789int);
    assert(mod_pow(17, 2955518, 13427688667394608761327070753331941386769nat) == 10904479366645596763359406282311296991789nat);
    lemma_fundamental_div_mod_converse(10904479366645596763359406282311296991789int * 10904479366645596763359406282311296991789int, m, 8855408641275219498731635544409897628229int, 9897964383217059574557063172222471918420int);
    lemma_fundamental_div_mod_converse(9897964383217059574557063172222471918420int * 17, m, 12int, 7133130505954707631545224887798725971912int);
    assert(mod_pow(17, 5911037, 13427688667394608761327070753331941386769nat) == 7133130505954707631545224887798725971912nat);
    lemma_fundamental_div_mod_converse(7133130505954707631545224887798725971912int * 7133130505954707631545224887798725971912int, m, 3789300755723752885866836972954470745106int, 9328086800500945686894275047842653033230int);
    assert(mod_pow(17, 11822074, 13427688667394608761327070753331941386769nat) == 9328086800500945686894275047842653033230nat);
    lemma_fundamental_div_mod_converse(9328086800500945686894275047842653033230int * 9328086800500945686894275047842653033230int, m, 6480132620960093384054447244890421721405int, 5460875894770468679798254418303613142455int);
    assert(mod_pow(17, 23644148, 13427688667394608761327070753331941386769nat) == 5460875894770468679798254418303613142455nat);
    lemma_fundamental_div_mod_converse(5460875894770468679798254418303613142455int * 5460875894770468679798254418303613142455int, m, 2220871087851294737554261996693320653537int, 4309574969297758188780719155738958575072int);
    lemma_fundamental_div_mod_converse(4309574969297758188780719155738958575072int * 17, m, 5int, 6124331141088845402636871880902588842379int);
    assert(mod_pow(17, 47288297, 13427688667394608761327070753331941386769nat) == 6124331141088845402636871880902588842379nat);
    lemma_fundamental_div_mod_converse(6124331141088845402636871880902588842379int * 6124331141088845402636871880902588842379int, m, 2793290256780150174222106798378010720512int, 8924227700919252254189479448761152673913int);
    assert(mod_pow(17, 94576594, 13427688667394608761327070753331941386769nat) == 8924227700919252254189479448761152673913nat);
    lemma_fundamental_div_mod_converse(8924227700919252254189479448761152673913int * 8924227700919252254189479448761152673913int, m, 5931165223635433660220298785623801140862int, 4988722149004746587387272536093118676691int);
    lemma_fundamental_div_mod_converse(4988722149004746587387272536093118676691int * 17, m, 6int, 4242144528713039417621208593591369183133int);
    assert(mod_pow(17, 189153189, 13427688667394608761327070753331941386769nat) == 4242144528713039417621208593591369183133nat);
    lemma_fundamental_div_mod_converse(4242144528713039417621208593591369183133int * 4242144528713039417621208593591369183133int, m, 1340200137808357527926122666852974056147int, 1343423639367721350093668576977642776646int);
    lemma_fundamental_div_mod_converse(1343423639367721350093668576977642776646int * 17, m, 1int, 9410513201856654190265295055287985816213int);
    assert(mod_pow(17, 378306379, 13427688667394608761327070753331941386769nat) == 9410513201856654190265295055287985816213nat);
    lemma_fundamental_div_mod_converse(9410513201856654190265295055287985816213int * 9410513201856654190265295055287985816213int, m, 6595160262939083342688659917953088625716int, 336570468567972385590001314938378109765int);
    lemma_fundamental_div_mod_converse(336570468567972385590001314938378109765int * 17, m, 0int, 5721697965655530555030022353952427866005int);
    assert(mod_pow(17, 756612759, 13427688667394608761327070753331941386769nat) == 5721697965655530555030022353952427866005nat);
    lemma_fundamental_div_mod_converse(5721697965655530555030022353952427866005int * 5721697965655530555030022353952427866005int, m, 2438083606278518116536065755726244214986int, 8852340825079959495090047564421622739791int);
    lemma_fundamental_div_mod_converse(8852340825079959495090047564421622739791int * 17, m, 11int, 2785218685018615041933030308516231321988int);
    assert(mod_pow(17, 1513225519, 13427688667394608761327070753331941386769nat) == 2785218685018615041933030308516231321988nat);
    lemma_fundamental_div_mod_converse(2785218685018615041933030308516231321988int * 2785218685018615041933030308516231321988int, m, 577719912602204348615485825277808955822int, 8653649232666190085692788966075595953026int);
    lemma_fundamental_div_mod_converse(8653649232666190085692788966075595953026int * 17, m, 10int, 12835150281379143843506704889965717333752int);
    assert(mod_pow(17, 3026451039, 13427688667394608761327070753331941386769nat) == 12835150281379143843506704889965717333752nat);
    lemma_fundamental_div_mod_converse(12835150281379143843506704889965717333752int * 12835150281379143843506704889965717333752int, m, 12268759488415516999076797497305240313444int, 5475006992889131578001082297666163975068int);
    assert(mod_pow(17, 6052902078, 13427688667394608761327070753331941386769nat) == 5475006992889131578001082297666163975068nat);
    lemma_fundamental_div_mod_converse(5475006992889131578001082297666163975068int * 5475006992889131578001082297666163975068int, m, 2232379846948083446452660734093589542734int, 12905167203592624021388054320198377918178int);
    assert(mod_pow(17, 12105804156, 13427688667394608761327070753331941386769nat) == 12905167203592624021388054320198377918178nat);
    lemma_fundamental_div_mod_converse(12905167203592624021388054320198377918178int * 12905167203592624021388054320198377918178int, m, 12402978999437680602478896229280218372019int, 691737825003360995103526926498856423073int);
    lemma_fundamental_div_mod_converse(691737825003360995103526926498856423073int * 17, m, 0int, 11759543025057136916759957750480559192241int);
    assert(mod_pow(17, 24211608313, 13427688667394608761327070753331941386769nat) == 11759543025057136916759957750480559192241nat);
    lemma_fundamental_div_mod_converse(11759543025057136916759957750480559192241int * 11759543025057136916759957750480559192241int, m, 10298634082421120782177831662669387900902int, 171811820472487402492625351522568636443int);
    lemma_fundamental_div_mod_converse(171811820472487402492625351522568636443int * 17, m, 0int, 2920800948032285842374630975883666819531int);
    assert(mod_pow(17, 48423216627, 13427688667394608761327070753331941386769nat) == 2920800948032285842374630975883666819531nat);
    lemma_fundamental_div_mod_converse(2920800948032285842374630975883666819531int * 2920800948032285842374630975883666819531int, m, 635334821155158307575813470382096500490int, 1872546548932455351129403737800435043151int);
    assert(mod_pow(17, 96846433254, 13427688667394608761327070753331941386769nat) == 1872546548932455351129403737800435043151nat);
    lemma_fundamental_div_mod_converse(1872546548932455351129403737800435043151int * 1872546548932455351129403737800435043151int, m, 261134337023559060258603942650732486369int, 12619302231575645647001415682177982557040int);
    assert(mod_pow(17, 193692866508, 13427688667394608761327070753331941386769nat) == 12619302231575645647001415682177982557040nat);
    lemma_fundamental_div_mod_converse(12619302231575645647001415682177982557040int * 12619302231575645647001415682177982557040int, m, 11859583041907757004018524943365174738870int, 7848350028138295841066235659981605550570int);
    lemma_fundamental_div_mod_converse(7848350028138295841066235659981605550570int * 17, m, 9int, 12572752471799550446182369439699821878769int);
    assert(mod_pow(17, 387385733017, 13427688667394608761327070753331941386769nat) == 12572752471799550446182369439699821878769nat);
    lemma_fundamental_div_mod_converse(12572752471799550446182369439699821878769int * 12572752471799550446182369439699821878769int, m, 11772249761865607949527361907796917890262int, 2053129805991369686389597782178892211883int);
    assert(mod_pow(17, 774771466034, 13427688667394608761327070753331941386769nat) == 2053129805991369686389597782178892211883nat);
    lemma_fundamental_div_mod_converse(2053129805991369686389597782178892211883int * 2053129805991369686389597782178892211883int, m, 313929083751095594336006499651605695348int, 6099240274558983933073643568998514355077int);
    assert(mod_pow(17, 1549542932068, 13427688667394608761327070753331941386769nat) == 6099240274558983933073643568998514355077nat);
    lemma_fundamental_div_mod_converse(6099240274558983933073643568998514355077int * 6099240274558983933073643568998514355077int, m, 2770449393657296813687391538390529702858int, 8276643563688635668948262829667212990127int);
    assert(mod_pow(17, 3099085864136, 13427688667394608761327070753331941386769nat) == 8276643563688635668948262829667212990127nat);
    lemma_fundamental_div_mod_converse(8276643563688635668948262829667212990127int * 8276643563688635668948262829667212990127int, m, 5101609843448970023820891642096472534129int, 5291918129345485941954412161312257936928int);
    lemma_fundamental_div_mod_converse(5291918129345485941954412161312257936928int * 17, m, 6int, 9396476194505608445262582222316736607162int);
    assert(mod_pow(17, 6198171728273, 13427688667394608761327070753331941386769nat) == 9396476194505608445262582222316736607162nat);
    lemma_fundamental_div_mod_converse(9396476194505608445262582222316736607162int * 9396476194505608445262582222316736607162int, m, 6575499854141490963308238251939403503995int, 2125030253737238506499065138736978052089int);
    lemma_fundamental_div_mod_converse(2125030253737238506499065138736978052089int * 17, m, 2int, 9270136978743837087829965851864744111975int);
    assert(mod_pow(17, 12396343456547, 13427688667394608761327070753331941386769nat) == 9270136978743837087829965851864744111975nat);
    lemma_fundamental_div_mod_converse(9270136978743837087829965851864744111975int * 9270136978743837087829965851864744111975int, m, 6399868341700841413511988647475530753121int, 11013394459278229153967791347139623544576int);
    lemma_fundamental_div_mod_converse(11013394459278229153967791347139623544576int * 17, m, 13int, 12667753131599981720200533108058362229795int);
    assert(mod_pow(17, 24792686913095, 13427688667394608761327070753331941386769nat) == 12667753131599981720200533108058362229795nat);
    lemma_fundamental_div_mod_converse(12667753131599981720200533108058362229795int * 12667753131599981720200533108058362229795int, m, 11950825892532234355556829409791412400708int, 12634211258344272368580743144447348309573int);
    lemma_fundamental_div_mod_converse(12634211258344272368580743144447348309573int * 17, m, 15int, 13366261380933498845966572155625800461206int);
    assert(mod_pow(17, 49585373826191, 13427688667394608761327070753331941386769nat) == 13366261380933498845966572155625800461206nat);
    lemma_fundamental_div_mod_converse(13366261380933498845966572155625800461206int * 13366261380933498845966572155625800461206int, m, 13305115104228828822644961792245027397925int, 12195739439108179988586403269018217920111int);
    assert(mod_pow(17, 99170747652382, 13427688667394608761327070753331941386769nat) == 12195739439108179988586403269018217920111nat);
    lemma_fundamental_div_mod_converse(12195739439108179988586403269018217920111int * 12195739439108179988586403269018217920111int, m, 11076817771906097417951229780367797293904int, 3593134814166555234472864010791548296145int);
    assert(mod_pow(17, 198341495304764, 13427688667394608761327070753331941386769nat) == 3593134814166555234472864010791548296145nat);
    lemma_fundamental_div_mod_converse(3593134814166555234472864010791548296145int * 3593134814166555234472864010791548296145int, m, 961492190694408522400762155328744347093int, 11836802675013800390575535339532728048508int);
    lemma_fundamental_div_mod_converse(11836802675013800390575535339532728048508int * 17, m, 14int, 13238004131710083981205110225409197409870int);
    assert(mod_pow(17, 396682990609529, 13427688667394608761327070753331941386769nat) == 13238004131710083981205110225409197409870nat);
    lemma_fundamental_div_mod_converse(13238004131710083981205110225409197409870int * 13238004131710083981205110225409197409870int, m, 13050999150487171174278625015245695139913int, 12495079347402817755173285255192071405803int);
    assert(mod_pow(17, 793365981219058, 13427688667394608761327070753331941386769nat) == 12495079347402817755173285255192071405803nat);
    lemma_fundamental_div_mod_converse(12495079347402817755173285255192071405803int * 12495079347402817755173285255192071405803int, m, 11627243657875629372322053317040938185307int, 10412317280935712170514627510528822071726int);
    lemma_fundamental_div_mod_converse(10412317280935712170514627510528822071726int * 17, m, 13int, 2449441099777193001496747885674737191345int);
    assert(mod_pow(17, 1586731962438117, 13427688667394608761327070753331941386769nat) == 2449441099777193001496747885674737191345nat);
    lemma_fundamental_div_mod_converse(2449441099777193001496747885674737191345int * 2449441099777193001496747885674737191345int, m, 446820137842966985728105302943078713386int, 9033260118104772498989783184466019319191int);
    assert(mod_pow(17, 3173463924876234, 13427688667394608761327070753331941386769nat) == 9033260118104772498989783184466019319191nat);
    lemma_fundamental_div_mod_converse(9033260118104772498989783184466019319191int * 9033260118104772498989783184466019319191int, m, 6076979470002498759596721872691261181091int, 1423102420339570684299935985319760509502int);
    assert(mod_pow(17, 6346927849752468, 13427688667394608761327070753331941386769nat) == 1423102420339570684299935985319760509502nat);
    lemma_fundamental_div_mod_converse(1423102420339570684299935985319760509502int * 1423102420339570684299935985319760509502int, m, 150824207273588820368613466246403731058int, 9404524528922531856706468156530396716402int);
    lemma_fundamental_div_mod_converse(9404524528922531856706468156530396716402int * 17, m, 11int, 12172341650342345189412180374365388924375int);
    assert(mod_pow(17, 12693855699504937, 13427688667394608761327070753331941386769nat) == 12172341650342345189412180374365388924375nat);
    lemma_fundamental_div_mod_converse(12172341650342345189412180374365388924375int * 12172341650342345189412180374365388924375int, m, 11034356315725320058751503372764694875658int, 8444803546336858038402505532854927771623int);
    lemma_fundamental_div_mod_converse(8444803546336858038402505532854927771623int * 17, m, 10int, 9284773613780499039571886525214358249901int);
    assert(mod_pow(17, 25387711399009875, 13427688667394608761327070753331941386769nat) == 9284773613780499039571886525214358249901nat);
    lemma_fundamental_div_mod_converse(9284773613780499039571886525214358249901int * 9284773613780499039571886525214358249901int, m, 6420093822139640339192328522621863005131int, 2297755427471613358505199986097663998062int);
    assert(mod_pow(17, 50775422798019750, 13427688667394608761327070753331941386769nat) == 2297755427471613358505199986097663998062nat);
    lemma_fundamental_div_mod_converse(2297755427471613358505199986097663998062int * 2297755427471613358505199986097663998062int, m, 393193507479472977430490029563004620421int, 7273352498221932067843903007553143146095int);
    assert(mod_pow(17, 101550845596039500, 13427688667394608761327070753331941386769nat) == 7273352498221932067843903007553143146095nat);
    lemma_fundamental_div_mod_converse(7273352498221932067843903007553143146095int * 7273352498221932067843903007553143146095int, m, 3939744052291599263045848098961819625486int, 9718699420900455816996188776411458154291int);
    assert(mod_pow(17, 203101691192079000, 13427688667394608761327070753331941386769nat) == 9718699420900455816996188776411458154291nat);
    lemma_fundamental_div_mod_converse(9718699420900455816996188776411458154291int * 9718699420900455816996188776411458154291int, m, 7034205273403744476592547139883051470966int, 2709339025949912222646697214696981663827int);
    lemma_fundamental_div_mod_converse(2709339025949912222646697214696981663827int * 17, m, 3int, 5775697438964681501012640389852864124752int);
    assert(mod_pow(17, 406203382384158001, 13427688667394608761327070753331941386769nat) == 5775697438964681501012640389852864124752nat);
    lemma_fundamental_div_mod_converse(5775697438964681501012640389852864124752int * 5775697438964681501012640389852864124752int, m, 2484320401877161440160734709229488290199int, 10986201027645507870779055981092248084473int);
    lemma_fundamental_div_mod_converse(10986201027645507870779055981092248084473int * 17, m, 13int, 12205464793843719905992031885252979408044int);
    assert(mod_pow(17, 812406764768316003, 13427688667394608761327070753331941386769nat) == 12205464793843719905992031885252979408044nat);
    lemma_fundamental_div_mod_converse(12205464793843719905992031885252979408044int * 12205464793843719905992031885252979408044int, m, 11094490982316170253301848671049727457487int, 227913544229782168470733865561380116433int);
    lemma_fundamental_div_mod_converse(227913544229782168470733865561380116433int * 17, m, 0int, 3874530251906296864002475714543461979361int);
    assert(mod_pow(17, 1624813529536632007, 13427688667394608761327070753331941386769nat) == 3874530251906296864002475714543461979361nat);
    lemma_fundamental_div_mod_converse(3874530251906296864002475714543461979361int * 3874530251906296864002475714543461979361int, m, 1117987245965084355007981589073002283570int, 9265064817327652596422297122446405882991int);
    assert(mod_pow(17, 3249627059073264014, 13427688667394608761327070753331941386769nat) == 9265064817327652596422297122446405882991nat);
    lemma_fundamental_div_mod_converse(9265064817327652596422297122446405882991int * 9265064817327652596422297122446405882991int, m, 6392866873486917679475392798922896419834int, 6549818924936291997641194065131186329735int);
    lemma_fundamental_div_mod_converse(6549818924936291997641194065131186329735int * 17, m, 8int, 3925412384760093869283733080574636511343int);
    assert(mod_pow(17, 6499254118146528029, 13427688667394608761327070753331941386769nat) == 3925412384760093869283733080574636511343nat);
    lemma_fundamental_div_mod_converse(3925412384760093869283733080574636511343int * 3925412384760093869283733080574636511343int, m, 1147543912590410698538405906905079922164int, 292908952802360335761561342557028215533int);
    lemma_fundamental_div_mod_converse(292908952802360335761561342557028215533int * 17, m, 0int, 4979452197640125707946542823469479664061int);
    assert(mod_pow(17, 12998508236293056059nat, 13427688667394608761327070753331941386769nat) == 4979452197640125707946542823469479664061nat);
    lemma_fundamental_div_mod_converse(4979452197640125707946542823469479664061int * 4979452197640125707946542823469479664061int, m, 1846553401911281548209465013793021184265int, 11941665722260458479643857188710633021936int);
    assert(mod_pow(17, 25997016472586112118nat, 13427688667394608761327070753331941386769nat) == 11941665722260458479643857188710633021936nat);
    lemma_fundamental_div_mod_converse(11941665722260458479643857188710633021936int * 11941665722260458479643857188710633021936int, m, 10620098793955721780404935982462442289250int, 364780863924040195017981599615436254846int);
    lemma_fundamental_div_mod_converse(364780863924040195017981599615436254846int * 17, m, 0int, 6201274686708683315305687193462416332382int);
    assert(mod_pow(17, 51994032945172224237nat, 13427688667394608761327070753331941386769nat) == 6201274686708683315305687193462416332382nat);
    lemma_fundamental_div_mod_converse(6201274686708683315305687193462416332382int * 6201274686708683315305687193462416332382int, m, 2863918630567676612064826712159401259653int, 6565949036038501841524354486678034062767int);
    lemma_fundamental_div_mod_converse(6565949036038501841524354486678034062767int * 17, m, 8int, 4199624273497661215297460246871047972887int);
    assert(mod_pow(17, 103988065890344448475nat, 13427688667394608761327070753331941386769nat) == 4199624273497661215297460246871047972887nat);
    lemma_fundamental_div_mod_converse(4199624273497661215297460246871047972887int * 4199624273497661215297460246871047972887int, m, 1313468347041505966930614481926212050405int, 4212618601013671253722652166957259023324int);
    lemma_fundamental_div_mod_converse(4212618601013671253722652166957259023324int * 17, m, 5int, 4476072880259367506649733071613696462663int);
    assert(mod_pow(17, 207976131780688896951nat, 13427688667394608761327070753331941386769nat) == 4476072880259367506649733071613696462663nat);
    lemma_fundamental_div_mod_converse(4476072880259367506649733071613696462663int * 4476072880259367506649733071613696462663int, m, 1492083181675439498696082731474057060375int, 4341433591284215798089347888565893873194int);
    lemma_fundamental_div_mod_converse(4341433591284215798089347888565893873194int * 17, m, 5int, 6665927714858624760883560338960488910453int);
    assert(mod_pow(17, 415952263561377793903nat, 13427688667394608761327070753331941386769nat) == 6665927714858624760883560338960488910453nat);
    lemma_fundamental_div_mod_converse(6665927714858624760883560338960488910453int * 6665927714858624760883560338960488910453int, m, 3309176538149661056704785350497361477105int, 4299758903736035795253270680479109241464int);
    assert(mod_pow(17, 831904527122755587806nat, 13427688667394608761327070753331941386769nat) == 4299758903736035795253270680479109241464nat);
    lemma_fundamental_div_mod_converse(4299758903736035795253270680479109241464int * 4299758903736035795253270680479109241464int, m, 1376851004532900886868987985780975545373int, 2589544986957822776818764398419755493459int);
    assert(mod_pow(17, 1663809054245511175612nat, 13427688667394608761327070753331941386769nat) == 2589544986957822776818764398419755493459nat);
    lemma_fundamental_div_mod_converse(2589544986957822776818764398419755493459int * 2589544986957822776818764398419755493459int, m, 499396687365966036296122516226643193681int, 13204663901428112728129661043782393977992int);
    lemma_fundamental_div_mod_converse(13204663901428112728129661043782393977992int * 17, m, 16int, 9636267645964176196971105690989635437560int);
    assert(mod_pow(17, 3327618108491022351225nat, 13427688667394608761327070753331941386769nat) == 9636267645964176196971105690989635437560nat);
    lemma_fundamental_div_mod_converse(9636267645964176196971105690989635437560int * 9636267645964176196971105690989635437560int, m, 6915386292067885177235480535506227787224int, 5199105905545766732768277275435837914344int);
    lemma_fundamental_div_mod_converse(5199105905545766732768277275435837914344int * 17, m, 6int, 7818668389910381889098289162417596223234int);
    assert(mod_pow(17, 6655236216982044702451nat, 13427688667394608761327070753331941386769nat) == 7818668389910381889098289162417596223234nat);
    lemma_fundamental_div_mod_converse(7818668389910381889098289162417596223234int * 7818668389910381889098289162417596223234int, m, 4552650638961026760664265674465236373805int, 12265423002083981585029685908088196232711int);
    lemma_fundamental_div_mod_converse(12265423002083981585029685908088196232711int * 17, m, 15int, 7096861024508555525598599137520215154552int);
    assert(mod_pow(17, 13310472433964089404903nat, 13427688667394608761327070753331941386769nat) == 7096861024508555525598599137520215154552nat);
    lemma_fundamental_div_mod_converse(7096861024508555525598599137520215154552int * 7096861024508555525598599137520215154552int, m, 3750864176906858015240605792112799543852int, 6269389355395135057614886656417738226516int);
    assert(mod_pow(17, 26620944867928178809806nat, 13427688667394608761327070753331941386769nat) == 6269389355395135057614886656417738226516nat);
    lemma_fundamental_div_mod_converse(6269389355395135057614886656417738226516int * 6269389355395135057614886656417738226516int, m, 2927178598129373560069997739458122449205int, 11770021533728820590984849129614463929611int);
    assert(mod_pow(17, 53241889735856357619612nat, 13427688667394608761327070753331941386769nat) == 11770021533728820590984849129614463929611nat);
    lemma_fundamental_div_mod_converse(11770021533728820590984849129614463929611int * 11770021533728820590984849129614463929611int, m, 10316995749300460100953127838070943140366int, 2080120747445374013087183016154100393867int);
    assert(mod_pow(17, 106483779471712715239224nat, 13427688667394608761327070753331941386769nat) == 2080120747445374013087183016154100393867nat);
    lemma_fundamental_div_mod_converse(2080120747445374013087183016154100393867int * 2080120747445374013087183016154100393867int, m, 322237313593617577700605734796097073489int, 1778850393087200458298589894283365946648int);
    lemma_fundamental_div_mod_converse(1778850393087200458298589894283365946648int * 17, m, 2int, 3385079347693190268421886696153338319478int);
    assert(mod_pow(17, 212967558943425430478449nat, 13427688667394608761327070753331941386769nat) == 3385079347693190268421886696153338319478nat);
    lemma_fundamental_div_mod_converse(3385079347693190268421886696153338319478int * 3385079347693190268421886696153338319478int, m, 853368176311933549004346244759226972995int, 6206452147689499537043754436946780889329int);
    assert(mod_pow(17, 425935117886850860956898nat, 13427688667394608761327070753331941386769nat) == 6206452147689499537043754436946780889329nat);
    lemma_fundamental_div_mod_converse(6206452147689499537043754436946780889329int * 6206452147689499537043754436946780889329int, m, 2868702813693824981325778174467238542996int, 5565586761801098453678693578592874050317int);
    lemma_fundamental_div_mod_converse(5565586761801098453678693578592874050317int * 17, m, 7int, 621154278856412383248295562755269148006int);
    assert(mod_pow(17, 851870235773701721913797nat, 13427688667394608761327070753331941386769nat) == 621154278856412383248295562755269148006nat);
    lemma_fundamental_div_mod_converse(621154278856412383248295562755269148006int * 621154278856412383248295562755269148006int, m, 28734106643276329820256145562865835381int, 9202544792093152275283261314448328302047int);
    assert(mod_pow(17, 1703740471547403443827594nat, 13427688667394608761327070753331941386769nat) == 9202544792093152275283261314448328302047nat);
    lemma_fundamental_div_mod_converse(9202544792093152275283261314448328302047int * 9202544792093152275283261314448328302047int, m, 6306880711057824293709654531808983951830int, 10342836675057633280909102759029969052939int);
    lemma_fundamental_div_mod_converse(10342836675057633280909102759029969052939int * 17, m, 13int, 1268270799849851878202827110194235871966int);
    assert(mod_pow(17, 3407480943094806887655189nat, 13427688667394608761327070753331941386769nat) == 1268270799849851878202827110194235871966nat);
    lemma_fundamental_div_mod_converse(1268270799849851878202827110194235871966int * 1268270799849851878202827110194235871966int, m, 119790595507148022886941485923346634453int, 2997637645135970990203543095574610952799int);
    assert(mod_pow(17, 6814961886189613775310378nat, 13427688667394608761327070753331941386769nat) == 2997637645135970990203543095574610952799nat);
    lemma_fundamental_div_mod_converse(2997637645135970990203543095574610952799int * 2997637645135970990203543095574610952799int, m, 669201652951331173978392704783690985989int, 11578769810677167054086607106020996954860int);
    lemma_fundamental_div_mod_converse(11578769810677167054086607106020996954860int * 17, m, 14int, 8851445437987317260893330255709768817854int);
    assert(mod_pow(17, 13629923772379227550620757nat, 13427688667394608761327070753331941386769nat) == 8851445437987317260893330255709768817854nat);
    lemma_fundamental_div_mod_converse(8851445437987317260893330255709768817854int * 8851445437987317260893330255709768817854int, m, 5834815528000208538757438561590223850888int, 1575222942128601307823118696962437064444int);
    assert(mod_pow(17, 27259847544758455101241514nat, 13427688667394608761327070753331941386769nat) == 1575222942128601307823118696962437064444nat);
    lemma_fundamental_div_mod_converse(1575222942128601307823118696962437064444int * 1575222942128601307823118696962437064444int, m, 184791841609606061117650479328170493168int, 10075615904983784144641996609731648934944int);
    lemma_fundamental_div_mod_converse(10075615904983784144641996609731648934944int * 17, m, 12int, 10153206375989025322989093325454735252820int);
    assert(mod_pow(17, 54519695089516910202483029nat, 13427688667394608761327070753331941386769nat) == 10153206375989025322989093325454735252820nat);
    lemma_fundamental_div_mod_converse(10153206375989025322989093325454735252820int * 10153206375989025322989093325454735252820int, m, 7677240831755627311177072989703479273491int, 4113259480820478427582926287418158111821int);
    assert(mod_pow(17, 109039390179033820404966058nat, 13427688667394608761327070753331941386769nat) == 4113259480820478427582926287418158111821nat);
    lemma_fundamental_div_mod_converse(4113259480820478427582926287418158111821int * 4113259480820478427582926287418158111821int, m, 1260001179327487920882254885634015400071int, 7681663496550289267450092575233858875442int);
    lemma_fundamental_div_mod_converse(7681663496550289267450092575233858875442int * 17, m, 9int, 9739081434803438694707936998988128401593int);
    assert(mod_pow(17, 218078780358067640809932117nat, 13427688667394608761327070753331941386769nat) == 9739081434803438694707936998988128401593nat);
    lemma_fundamental_div_mod_converse(9739081434803438694707936998988128401593int * 9739081434803438694707936998988128401593int, m, 7063740420497611485837670257786942735879int, 5871197303311413484203274087270932752698int);
    assert(mod_pow(17, 436157560716135281619864234nat, 13427688667394608761327070753331941386769nat) == 5871197303311413484203274087270932752698nat);
    lemma_fundamental_div_mod_converse(5871197303311413484203274087270932752698int * 5871197303311413484203274087270932752698int, m, 2567154975682025319715633212845447950565int, 4263838311028225444095767311960569204719int);
    assert(mod_pow(17, 872315121432270563239728468nat, 13427688667394608761327070753331941386769nat) == 4263838311028225444095767311960569204719nat);
    lemma_fundamental_div_mod_converse(4263838311028225444095767311960569204719int * 4263838311028225444095767311960569204719int, m, 1353942409071328272836995807074503607757int, 5436759383923958669939738790339926301828int);
    lemma_fundamental_div_mod_converse(5436759383923958669939738790339926301828int * 17, m, 6int, 11858777522339644821013134915787098810462int);
    assert(mod_pow(17, 1744630242864541126479456937nat, 13427688667394608761327070753331941386769nat) == 11858777522339644821013134915787098810462nat);
    lemma_fundamental_div_mod_converse(11858777522339644821013134915787098810462int * 11858777522339644821013134915787098810462int, m, 10473180292437830061550229794173860695084int, 11053214564776446956643464821890179709848int);
    assert(mod_pow(17, 3489260485729082252958913874nat, 13427688667394608761327070753331941386769nat) == 11053214564776446956643464821890179709848nat);
    lemma_fundamental_div_mod_converse(11053214564776446956643464821890179709848int * 11053214564776446956643464821890179709848int, m, 9098628605506063387751847773924758705087int, 11021606168389760936890407299785993389201int);
    lemma_fundamental_div_mod_converse(11021606168389760936890407299785993389201int * 17, m, 13int, 12807352186496022029885004303046649588420int);
    assert(mod_pow(17, 6978520971458164505917827749nat, 13427688667394608761327070753331941386769nat) == 12807352186496022029885004303046649588420nat);
    lemma_fundamental_div_mod_converse(12807352186496022029885004303046649588420int * 12807352186496022029885004303046649588420int, m, 12215674200671726386598061206910267262525int, 5920267451520838593097734427785513564675int);
    assert(mod_pow(17, 13957041942916329011835655498nat, 13427688667394608761327070753331941386769nat) == 5920267451520838593097734427785513564675nat);
    lemma_fundamental_div_mod_converse(5920267451520838593097734427785513564675int * 5920267451520838593097734427785513564675int, m, 2610245706891099392511553582510554697597int, 2950871554689617714567021297649795961532int);
    assert(mod_pow(17, 27914083885832658023671310996nat, 13427688667394608761327070753331941386769nat) == 2950871554689617714567021297649795961532nat);
    lemma_fundamental_div_mod_converse(2950871554689617714567021297649795961532int * 2950871554689617714567021297649795961532int, m, 648484124704231496566198667750996981301int, 411561946282638284837079622909721980555int);
    assert(mod_pow(17, 55828167771665316047342621992nat, 13427688667394608761327070753331941386769nat) == 411561946282638284837079622909721980555nat);
    lemma_fundamental_div_mod_converse(411561946282638284837079622909721980555int * 411561946282638284837079622909721980555int, m, 12614474450785645325639382471314479390int, 5501722487228400610716383003885928917115int);
    lemma_fundamental_div_mod_converse(5501722487228400610716383003885928917115int * 17, m, 6int, 12963150278515157814216086546069143270341int);
    assert(mod_pow(17, 111656335543330632094685243985nat, 13427688667394608761327070753331941386769nat) == 12963150278515157814216086546069143270341nat);
    lemma_fundamental_div_mod_converse(12963150278515157814216086546069143270341int * 12963150278515157814216086546069143270341int, m, 12514682854645993119653454928402390432579int, 8030191569068638048506308373597553109030int);
    lemma_fundamental_div_mod_converse(8030191569068638048506308373597553109030int * 17, m, 10int, 2236370000220759211336534817838988985820int);
    assert(mod_pow(17, 223312671086661264189370487971nat, 13427688667394608761327070753331941386769nat) == 2236370000220759211336534817838988985820nat);
    lemma_fundamental_div_mod_converse(2236370000220759211336534817838988985820int * 2236370000220759211336534817838988985820int, m, 372465500338251207476894534767819461459int, 4156435227260528236964422109344953036429int);
    lemma_fundamental_div_mod_converse(4156435227260528236964422109344953036429int * 17, m, 5int, 3520955526455936221759822092204494685448int);
    assert(mod_pow(17, 446625342173322528378740975943nat, 13427688667394608761327070753331941386769nat) == 3520955526455936221759822092204494685448nat);
    lemma_fundamental_div_mod_converse(3520955526455936221759822092204494685448int * 3520955526455936221759822092204494685448int, m, 923251061769369219569110392689453163288int, 12772118397677983629955352362383943224232int);
    lemma_fundamental_div_mod_converse(12772118397677983629955352362383943224232int * 17, m, 16int, 2282994082211981528007858107215972623640int);
    assert(mod_pow(17, 893250684346645056757481951887nat, 13427688667394608761327070753331941386769nat) == 2282994082211981528007858107215972623640nat);
    lemma_fundamental_div_mod_converse(2282994082211981528007858107215972623640int * 2282994082211981528007858107215972623640int, m, 388157791599008735534686840791395180689int, 713148787750692225958350584735097945759int);
    assert(mod_pow(17, 1786501368693290113514963903774nat, 13427688667394608761327070753331941386769nat) == 713148787750692225958350584735097945759nat);
    lemma_fundamental_div_mod_converse(713148787750692225958350584735097945759int * 713148787750692225958350584735097945759int, m, 37875557444612879589100699583406639362int, 12520518781061447880412096334037564684703int);
    lemma_fundamental_div_mod_converse(12520518781061447880412096334037564684703int * 17, m, 15int, 11433489267125482547099576378659478838416int);
    assert(mod_pow(17, 3573002737386580227029927807549nat, 13427688667394608761327070753331941386769nat) == 11433489267125482547099576378659478838416nat);
    lemma_fundamental_div_mod_converse(11433489267125482547099576378659478838416int * 11433489267125482547099576378659478838416int, m, 9735456343942644945380935593263641706067int, 8564402836216068617994091824491576561533int);
    assert(mod_pow(17, 7146005474773160454059855615098nat, 13427688667394608761327070753331941386769nat) == 8564402836216068617994091824491576561533nat);
    lemma_fundamental_div_mod_converse(8564402836216068617994091824491576561533int * 8564402836216068617994091824491576561533int, m, 5462518364690223172558778975595109179301int, 1333830322677559567032096548471925241620int);
    lemma_fundamental_div_mod_converse(1333830322677559567032096548471925241620int * 17, m, 1int, 9247426818123903878218570570690787720771int);
    assert(mod_pow(17, 14292010949546320908119711230197nat, 13427688667394608761327070753331941386769nat) == 9247426818123903878218570570690787720771nat);
    lemma_fundamental_div_mod_converse(9247426818123903878218570570690787720771int * 9247426818123903878218570570690787720771int, m, 6368549709095225308923573335925099881933int, 8484664410543583350137746235314876489964int);
    assert(mod_pow(17, 28584021899092641816239422460394nat, 13427688667394608761327070753331941386769nat) == 8484664410543583350137746235314876489964nat);
    lemma_fundamental_div_mod_converse(8484664410543583350137746235314876489964int * 8484664410543583350137746235314876489964int, m, 5361274895682632128764476594996490506799int, 7426017849417741881580999850045309578865int);
    assert(mod_pow(17, 57168043798185283632478844920788nat, 13427688667394608761327070753331941386769nat) == 7426017849417741881580999850045309578865nat);
    lemma_fundamental_div_mod_converse(7426017849417741881580999850045309578865int * 7426017849417741881580999850045309578865int, m, 4106867716837740869873992488088689644650int, 11612751690018634888483022077752833052375int);
    assert(mod_pow(17, 114336087596370567264957689841576nat, 13427688667394608761327070753331941386769nat) == 11612751690018634888483022077752833052375nat);
    lemma_fundamental_div_mod_converse(11612751690018634888483022077752833052375int * 11612751690018634888483022077752833052375int, m, 10043128430694911217929528178878413857650int, 641593330235668623618069100811533707775int);
    assert(mod_pow(17, 228672175192741134529915379683152nat, 13427688667394608761327070753331941386769nat) == 641593330235668623618069100811533707775nat);
    lemma_fundamental_div_mod_converse(641593330235668623618069100811533707775int * 641593330235668623618069100811533707775int, m, 30656206857286865202522384555323733479int, 1110117697733341524094756675281282511274int);
    lemma_fundamental_div_mod_converse(1110117697733341524094756675281282511274int * 17, m, 1int, 5444312194072197148283792726449861304889int);
    assert(mod_pow(17, 457344350385482269059830759366305nat, 13427688667394608761327070753331941386769nat) == 5444312194072197148283792726449861304889nat);
    lemma_fundamental_div_mod_converse(5444312194072197148283792726449861304889int * 5444312194072197148283792726449861304889int, m, 2207419013109604024084658534621177657300int, 1238554713349140159236011924353179038621int);
    lemma_fundamental_div_mod_converse(1238554713349140159236011924353179038621int * 17, m, 1int, 7627741459540773945685131960672102269788int);
    assert(mod_pow(17, 914688700770964538119661518732611nat, 13427688667394608761327070753331941386769nat) == 7627741459540773945685131960672102269788nat);
    lemma_fundamental_div_mod_converse(7627741459540773945685131960672102269788int * 7627741459540773945685131960672102269788int, m, 4333019718790250145449982664580794651111int, 3299461706024118056118098897378671014585int);
    lemma_fundamental_div_mod_converse(3299461706024118056118098897378671014585int * 17, m, 4int, 2380094332831571908699398242109641700869int);
    assert(mod_pow(17, 1829377401541929076239323037465223nat, 13427688667394608761327070753331941386769nat) == 2380094332831571908699398242109641700869nat);
    lemma_fundamental_div_mod_converse(2380094332831571908699398242109641700869int * 2380094332831571908699398242109641700869int, m, 421878193149686955469350372268829673540int, 9767612606880130251424548837922129962901int);
    lemma_fundamental_div_mod_converse(9767612606880130251424548837922129962901int * 17, m, 12int, 4917150308226909138292481204692912728089int);
    assert(mod_pow(17, 3658754803083858152478646074930447nat, 13427688667394608761327070753331941386769nat) == 4917150308226909138292481204692912728089nat);
    lemma_fundamental_div_mod_converse(4917150308226909138292481204692912728089int * 4917150308226909138292481204692912728089int, m, 1800635072244890407025746100795286164652int, 12359143388177386720825360830956301302533int);
    lemma_fundamental_div_mod_converse(12359143388177386720825360830956301302533int * 17, m, 15int, 8690107588096442834125072826278001341526int);
    assert(mod_pow(17, 7317509606167716304957292149860895nat, 13427688667394608761327070753331941386769nat) == 8690107588096442834125072826278001341526nat);
    lemma_fundamental_div_mod_converse(8690107588096442834125072826278001341526int * 8690107588096442834125072826278001341526int, m, 5624048320100366251070448950767635176842int, 8057702245907418763949761132655658005178int);
    assert(mod_pow(17, 14635019212335432609914584299721790nat, 13427688667394608761327070753331941386769nat) == 8057702245907418763949761132655658005178nat);
    lemma_fundamental_div_mod_converse(8057702245907418763949761132655658005178int * 8057702245907418763949761132655658005178int, m, 4835274863153290789972171007368830047096int, 5258620932401149070986355759872453538860int);
    assert(mod_pow(17, 29270038424670865219829168599443580nat, 13427688667394608761327070753331941386769nat) == 5258620932401149070986355759872453538860nat);
    lemma_fundamental_div_mod_converse(5258620932401149070986355759872453538860int * 5258620932401149070986355759872453538860int, m, 2059408346116584105242394245122460471672int, 250473396944316499887114737148009991832int);
    assert(mod_pow(17, 58540076849341730439658337198887160nat, 13427688667394608761327070753331941386769nat) == 250473396944316499887114737148009991832nat);
    lemma_fundamental_div_mod_converse(250473396944316499887114737148009991832int * 250473396944316499887114737148009991832int, m, 4672205629042042851745431647921697562int, 2368951884242108070727380618653820359046int);
    lemma_fundamental_div_mod_converse(2368951884242108070727380618653820359046int * 17, m, 2int, 13416804697326619679711329010451063330244int);
    assert(mod_pow(17, 117080153698683460879316674397774321nat, 13427688667394608761327070753331941386769nat) == 13416804697326619679711329010451063330244nat);
    lemma_fundamental_div_mod_converse(13416804697326619679711329010451063330244int * 13416804697326619679711329010451063330244int, m, 13405929549387842495242741201537198749236int, 3324175781732699116485522701837685841052int);
    lemma_fundamental_div_mod_converse(3324175781732699116485522701837685841052int * 17, m, 4int, 2800233619877449934945602917912893750808int);
    assert(mod_pow(17, 234160307397366921758633348795548643nat, 13427688667394608761327070753331941386769nat) == 2800233619877449934945602917912893750808nat);
    lemma_fundamental_div_mod_converse(2800233619877449934945602917912893750808int * 2800233619877449934945602917912893750808int, m, 583965604216933757992107322271511630037int, 1182088962304295574663036658905345872411int);
    assert(mod_pow(17, 468320614794733843517266697591097286nat, 13427688667394608761327070753331941386769nat) == 1182088962304295574663036658905345872411nat);
    lemma_fundamental_div_mod_converse(1182088962304295574663036658905345872411int * 1182088962304295574663036658905345872411int, m, 104063651564597442378186702966540692752int, 9746117514987923808771147552865863954633int);
    assert(mod_pow(17, 936641229589467687034533395182194572nat, 13427688667394608761327070753331941386769nat) == 9746117514987923808771147552865863954633nat);
    lemma_fundamental_div_mod_converse(9746117514987923808771147552865863954633int * 9746117514987923808771147552865863954633int, m, 7073950623133176369929659346412356117988int, 494715280051516323902745079079776063917int);
    assert(mod_pow(17, 1873282459178935374069066790364389144nat, 13427688667394608761327070753331941386769nat) == 494715280051516323902745079079776063917nat);
    lemma_fundamental_div_mod_converse(494715280051516323902745079079776063917int * 494715280051516323902745079079776063917int, m, 18226756248135298496551093975601421943int, 1544192288960679410793738730521542910722int);
    assert(mod_pow(17, 3746564918357870748138133580728778288nat, 13427688667394608761327070753331941386769nat) == 1544192288960679410793738730521542910722nat);
    lemma_fundamental_div_mod_converse(1544192288960679410793738730521542910722int * 1544192288960679410793738730521542910722int, m, 177583043839539342421726109892996760754int, 983584509923101993025671116468388497458int);
    lemma_fundamental_div_mod_converse(983584509923101993025671116468388497458int * 17, m, 1int, 3293248001298125120109338226630663070017int);
    assert(mod_pow(17, 7493129836715741496276267161457556577nat, 13427688667394608761327070753331941386769nat) == 3293248001298125120109338226630663070017nat);
    lemma_fundamental_div_mod_converse(3293248001298125120109338226630663070017int * 3293248001298125120109338226630663070017int, m, 807695402142389590943874240639312243142int, 3537079780532610124557898514311854592091int);
    assert(mod_pow(17, 14986259673431482992552534322915113154nat, 13427688667394608761327070753331941386769nat) == 3537079780532610124557898514311854592091nat);
    lemma_fundamental_div_mod_converse(3537079780532610124557898514311854592091int * 3537079780532610124557898514311854592091int, m, 931726500647272563424983949291778683890int, 9027011463854370119812731245163720300871int);
    lemma_fundamental_div_mod_converse(9027011463854370119812731245163720300871int * 17, m, 11int, 5754619544183595662218652881131889860348int);
    assert(mod_pow(17, 29972519346862965985105068645830226309nat, 13427688667394608761327070753331941386769nat) == 5754619544183595662218652881131889860348nat);
    lemma_fundamental_div_mod_converse(5754619544183595662218652881131889860348int * 5754619544183595662218652881131889860348int, m, 2466220875280785354186850760272308038190int, 10649667615042638250562701103480529972994int);
    lemma_fundamental_div_mod_converse(10649667615042638250562701103480529972994int * 17, m, 13int, 6484396779594936362313998965853771512901int);
    assert(mod_pow(17, 59945038693725931970210137291660452619nat, 13427688667394608761327070753331941386769nat) == 6484396779594936362313998965853771512901nat);
    lemma_fundamental_div_mod_converse(6484396779594936362313998965853771512901int * 6484396779594936362313998965853771512901int, m, 3131395330703604380171273643687583193954int, 10864201404994558834406315422113353041175int);
    lemma_fundamental_div_mod_converse(10864201404994558834406315422113353041175int * 17, m, 13int, 10131471208777586287655442382611763671978int);
    assert(mod_pow(17, 119890077387451863940420274583320905239nat, 13427688667394608761327070753331941386769nat) == 10131471208777586287655442382611763671978nat);
    lemma_fundamental_div_mod_converse(10131471208777586287655442382611763671978int * 10131471208777586287655442382611763671978int, m, 7644406375278719865482608203139365676923int, 3290672015856811813172098352184941600697int);
    assert(mod_pow(17, 239780154774903727880840549166641810478nat, 13427688667394608761327070753331941386769nat) == 3290672015856811813172098352184941600697nat);
    lemma_fundamental_div_mod_converse(3290672015856811813172098352184941600697int * 3290672015856811813172098352184941600697int, m, 806432334273371656559728149388651754366int, 4250102822948083681621177862913800502355int);
    assert(mod_pow(17, 479560309549807455761681098333283620956nat, 13427688667394608761327070753331941386769nat) == 4250102822948083681621177862913800502355nat);
    lemma_fundamental_div_mod_converse(4250102822948083681621177862913800502355int * 4250102822948083681621177862913800502355int, m, 1345233305080503405313706092877279272251int, 9426976285444523909845718158554320299006int);
    assert(mod_pow(17, 959120619099614911523362196666567241912nat, 13427688667394608761327070753331941386769nat) == 9426976285444523909845718158554320299006nat);
    lemma_fundamental_div_mod_converse(9426976285444523909845718158554320299006int * 9426976285444523909845718158554320299006int, m, 6618256059371130794175562137976002025060int, 3365167042067484594214394565332554156896int);
    assert(mod_pow(17, 1918241238199229823046724393333134483824nat, 13427688667394608761327070753331941386769nat) == 3365167042067484594214394565332554156896nat);
}

#[verifier::rlimit(100)]
pub proof fn lemma_pow_p134276_41_digits_by_11()
    ensures
        mod_pow(17, 1220698969763146251029733704848358307888nat, 13427688667394608761327070753331941386769nat) == 3236340864352405644842122077993382124237nat,
{
    let m = 13427688667394608761327070753331941386769int;
    lemma_fundamental_div_mod_converse(1, m, 0, 1);
    assert(mod_pow(17, 0, 13427688667394608761327070753331941386769nat) == 1);
    lemma_fundamental_div_mod_converse(1int * 1int, m, 0int, 1int);
    lemma_fundamental_div_mod_converse(1int * 17, m, 0int, 17int);
    assert(mod_pow(17, 1, 13427688667394608761327070753331941386769nat) == 17);
    lemma_fundamental_div_mod_converse(17int * 17int, m, 0int, 289int);
    lemma_fundamental_div_mod_converse(289int * 17, m, 0int, 4913int);
    assert(mod_pow(17, 3, 13427688667394608761327070753331941386769nat) == 4913);
    lemma_fundamental_div_mod_converse(4913int * 4913int, m, 0int, 24137569int);
    lemma_fundamental_div_mod_converse(24137569int * 17, m, 0int, 410338673int);
    assert(mod_pow(17, 7, 13427688667394608761327070753331941386769nat) == 410338673);
    lemma_fundamental_div_mod_converse(410338673int * 410338673int, m, 0int, 168377826559400929int);
    assert(mod_pow(17, 14, 13427688667394608761327070753331941386769nat) == 168377826559400929);
    lemma_fundamental_div_mod_converse(168377826559400929int * 168377826559400929int, m, 0int, 28351092476867700887730107366063041int);
    assert(mod_pow(17, 28, 13427688667394608761327070753331941386769nat) == 28351092476867700887730107366063041nat);
    lemma_fundamental_div_mod_converse(28351092476867700887730107366063041int * 28351092476867700887730107366063041int, m, 59860223493539163850073865494int, 8721710388118662326264716255761248918795int);
    lemma_fundamental_div_mod_converse(8721710388118662326264716255761248918795int * 17, m, 11int, 564501256676563171902398061289876365056int);
    assert(mod_pow(17, 57, 13427688667394608761327070753331941386769nat) == 564501256676563171902398061289876365056nat);
    lemma_fundamental_div_mod_converse(564501256676563171902398061289876365056int * 564501256676563171902398061289876365056int, m, 23731684333968802056304071480881825555int, 321714273163602299160110289344334801341int);
    assert(mod_pow(17, 114, 13427688667394608761327070753331941386769nat) == 321714273163602299160110289344334801341nat);
    lemma_fundamental_div_mod_converse(321714273163602299160110289344334801341int * 321714273163602299160110289344334801341int, m, 7707958988392837627059866205093123367int, 1279285587394002337427856420318356867058int);
    lemma_fundamental_div_mod_converse(1279285587394002337427856420318356867058int * 17, m, 1int, 8320166318303430974946488392080125353217int);
    assert(mod_pow(17, 229, 13427688667394608761327070753331941386769nat) == 8320166318303430974946488392080125353217nat);
    lemma_fundamental_div_mod_converse(8320166318303430974946488392080125353217int * 8320166318303430974946488392080125353217int, m, 5155404573262474619636815161937826825505int, 8478150404054351885313289274850333505744int);
    lemma_fundamental_div_mod_converse(8478150404054351885313289274850333505744int * 17, m, 10int, 9851670194977894437055210139136255729958int);
    assert(mod_pow(17, 459, 13427688667394608761327070753331941386769nat) == 9851670194977894437055210139136255729958nat);
    lemma_fundamental_div_mod_converse(9851670194977894437055210139136255729958int * 9851670194977894437055210139136255729958int, m, 7228005357786387106191699296582658044295int, 1216900744722711243258574275991689748909int);
    assert(mod_pow(17, 918, 13427688667394608761327070753331941386769nat) == 1216900744722711243258574275991689748909nat);
    lemma_fundamental_div_mod_converse(1216900744722711243258574275991689748909int * 1216900744722711243258574275991689748909int, m, 110283121629302708179772377810045676507int, 309030397941938404035925151229122754398int);
    assert(mod_pow(17, 1836, 13427688667394608761327070753331941386769nat) == 309030397941938404035925151229122754398nat);
    lemma_fundamental_div_mod_converse(309030397941938404035925151229122754398int * 309030397941938404035925151229122754398int, m, 7112153790402317315448550894345065739int, 4410070441683765051835756990510098535113int);
    lemma_fundamental_div_mod_converse(4410070441683765051835756990510098535113int * 17, m, 5int, 7832754171650962074572515072011968163076int);
    assert(mod_pow(17, 3673, 13427688667394608761327070753331941386769nat) == 7832754171650962074572515072011968163076nat);
    lemma_fundamental_div_mod_converse(7832754171650962074572515072011968163076int * 7832754171650962074572515072011968163076int, m, 4569069140133687785119036210531769146242int, 8358485378750798028290846310877084909678int);
    assert(mod_pow(17, 7346, 13427688667394608761327070753331941386769nat) == 8358485378750798028290846310877084909678nat);
    lemma_fundamental_div_mod_converse(8358485378750798028290846310877084909678int * 8358485378750798028290846310877084909678int, m, 5203001019560183535170737353223100513009int, 11353868443823173959652613233782633085763int);
    lemma_fundamental_div_mod_converse(11353868443823173959652613233782633085763int * 17, m, 14int, 5028122201469434655515434427657583043205int);
    assert(mod_pow(17, 14693, 13427688667394608761327070753331941386769nat) == 5028122201469434655515434427657583043205nat);
    lemma_fundamental_div_mod_converse(5028122201469434655515434427657583043205int * 5028122201469434655515434427657583043205int, m, 1882826858675993910230029399229319415215int, 5039471320817072146276362355225678381690int);
    lemma_fundamental_div_mod_converse(5039471320817072146276362355225678381690int * 17, m, 6int, 5104880449522573918735735518844884168116int);
    assert(mod_pow(17, 29387, 13427688667394608761327070753331941386769nat) == 5104880449522573918735735518844884168116nat);
    lemma_fundamental_div_mod_converse(5104880449522573918735735518844884168116int * 5104880449522573918735735518844884168116int, m, 1940751312412891445814208166766842864417int, 8652375846958596212701810205574126290783int);
    assert(mod_pow(17, 58774, 13427688667394608761327070753331941386769nat) == 8652375846958596212701810205574126290783nat);
    lemma_fundamental_div_mod_converse(8652375846958596212701810205574126290783int * 8652375846958596212701810205574126290783int, m, 5575316024329477149937239090689616763207int, 10664452381688247353070548999165194944906int);
    lemma_fundamental_div_mod_converse(10664452381688247353070548999165194944906int * 17, m, 13int, 6735737812570291104947413192493076035405int);
    assert(mod_pow(17, 117549, 13427688667394608761327070753331941386769nat) == 6735737812570291104947413192493076035405nat);
    lemma_fundamental_div_mod_converse(6735737812570291104947413192493076035405int * 6735737812570291104947413192493076035405int, m, 3378851342439743931565186403718100112619int, 5924756502058153491784920974986876976014int);
    assert(mod_pow(17, 235098, 13427688667394608761327070753331941386769nat) == 5924756502058153491784920974986876976014nat);
    lemma_fundamental_div_mod_converse(5924756502058153491784920974986876976014int * 5924756502058153491784920974986876976014int, m, 2614205652080507691958322470112488073335int, 6756101806094294319862683315744260623581int);
    assert(mod_pow(17, 470196, 13427688667394608761327070753331941386769nat) == 6756101806094294319862683315744260623581nat);
    lemma_fundamental_div_mod_converse(6756101806094294319862683315744260623581int * 6756101806094294319862683315744260623581int, m, 3399312625198594585575182053204844847228int, 9366122696372335992083515740832707737229int);
    assert(mod_pow(17, 940392, 13427688667394608761327070753331941386769nat) == 9366122696372335992083515740832707737229nat);
    lemma_fundamental_div_mod_converse(9366122696372335992083515740832707737229int * 9366122696372335992083515740832707737229int, m, 6533086708847729373281876709546886853467int, 3040882497840690728084550143470437020318int);
    assert(mod_pow(17, 1880784, 13427688667394608761327070753331941386769nat) == 3040882497840690728084550143470437020318nat);
    lemma_fundamental_div_mod_converse(3040882497840690728084550143470437020318int * 3040882497840690728084550143470437020318int, m, 688649148391972578277819866426112469269int, 2629120132253284799109294553963589119263int);
    lemma_fundamental_div_mod_converse(2629120132253284799109294553963589119263int * 17, m, 3int, 4411976246122015300876795157385190867164int);
    assert(mod_pow(17, 3761569, 13427688667394608761327070753331941386769nat) == 4411976246122015300876795157385190867164nat);
    lemma_fundamental_div_mod_converse(4411976246122015300876795157385190867164int * 4411976246122015300876795157385190867164int, m, 1449656368903720772435587016182052009559int, 12081406522128135119756537894456589278025int);
    assert(mod_pow(17, 7523138, 13427688667394608761327070753331941386769nat) == 12081406522128135119756537894456589278025nat);
    lemma_fundamental_div_mod_converse(12081406522128135119756537894456589278025int * 12081406522128135119756537894456589278025int, m, 10870104838470396062338193996326199303892int, 8485646960933412219000768610397808895677int);
    assert(mod_pow(17, 15046276, 13427688667394608761327070753331941386769nat) == 8485646960933412219000768610397808895677nat);
    lemma_fundamental_div_mod_converse(8485646960933412219000768610397808895677int * 8485646960933412219000768610397808895677int, m, 5362516672020063202178137623968282686859int, 2186228662403911994261772645364436519758int);
    assert(mod_pow(17, 30092552, 13427688667394608761327070753331941386769nat) == 2186228662403911994261772645364436519758nat);
    lemma_fundamental_div_mod_converse(2186228662403911994261772645364436519758int * 2186228662403911994261772645364436519758int, m, 355950743475480739618206498680463722647int, 12241094677933052165168276858881752921021int);
    lemma_fundamental_div_mod_converse(12241094677933052165168276858881752921021int * 17, m, 15int, 6683279513942755387954645301010678855822int);
    assert(mod_pow(17, 60185105, 13427688667394608761327070753331941386769nat) == 6683279513942755387954645301010678855822nat);
    lemma_fundamental_div_mod_converse(6683279513942755387954645301010678855822int * 6683279513942755387954645301010678855822int, m, 3326426920363916678779089223271381552266int, 2885599888344785641736687217967168927130int);
    lemma_fundamental_div_mod_converse(2885599888344785641736687217967168927130int * 17, m, 3int, 8772132099677529625542470445446047600903int);
    assert(mod_pow(17, 120370211, 13427688667394608761327070753331941386769nat) == 8772132099677529625542470445446047600903nat);
    lemma_fundamental_div_mod_converse(8772132099677529625542470445446047600903int * 8772132099677529625542470445446047600903int, m, 5730718329882432989260407793393958730425int, 1297190287965201413349427792292833668584int);
    lemma_fundamental_div_mod_converse(1297190287965201413349427792292833668584int * 17, m, 1int, 8624546228013815265613201715646230979159int);
    assert(mod_pow(17, 240740423, 13427688667394608761327070753331941386769nat) == 8624546228013815265613201715646230979159nat);
    lemma_fundamental_div_mod_converse(8624546228013815265613201715646230979159int * 8624546228013815265613201715646230979159int, m, 5539508658684139427828645929750932816483int, 7951871931652612372952978221081891033854int);
    lemma_fundamental_div_mod_converse(7951871931652612372952978221081891033854int * 17, m, 10int, 904936164148322726929922225072733707828int);
    assert(mod_pow(17, 481480847, 13427688667394608761327070753331941386769nat) == 904936164148322726929922225072733707828nat);
    lemma_fundamental_div_mod_converse(904936164148322726929922225072733707828int * 904936164148322726929922225072733707828int, m, 60986628560429240487708510773427230359int, 2588745285309609304719744927135590757513int);
    assert(mod_pow(17, 962961694, 13427688667394608761327070753331941386769nat) == 2588745285309609304719744927135590757513nat);
    lemma_fundamental_div_mod_converse(2588745285309609304719744927135590757513int * 2588745285309609304719744927135590757513int, m, 499088288253636635306863135047543172418int, 7335904925282003446794128472120575007727int);
    assert(mod_pow(17, 1925923388, 13427688667394608761327070753331941386769nat) == 7335904925282003446794128472120575007727nat);
    lemma_fundamental_div_mod_converse(7335904925282003446794128472120575007727int * 7335904925282003446794128472120575007727int, m, 4007800776871798413829020804791737835502int, 1528959315954683535648568420345828433491int);
    lemma_fundamental_div_mod_converse(1528959315954683535648568420345828433491int * 17, m, 1int, 12564619703835011344698592392547141982578int);
    assert(mod_pow(17, 3851846777, 13427688667394608761327070753331941386769nat) == 12564619703835011344698592392547141982578nat);
    lemma_fundamental_div_mod_converse(12564619703835011344698592392547141982578int * 12564619703835011344698592392547141982578int, m, 11757024772650664794783240309057869291554int, 962627463603527402746437578610116477058int);
    assert(mod_pow(17, 7703693554, 13427688667394608761327070753331941386769nat) == 962627463603527402746437578610116477058nat);
    lemma_fundamental_div_mod_converse(962627463603527402746437578610116477058int * 962627463603527402746437578610116477058int, m, 69010509301863330347026999623817256495int, 3287287271443818087745354448281768020709int);
    assert(mod_pow(17, 15407387108, 13427688667394608761327070753331941386769nat) == 3287287271443818087745354448281768020709nat);
    lemma_fundamental_div_mod_converse(3287287271443818087745354448281768020709int * 3287287271443818087745354448281768020709int, m, 804774214883051368119997629108911656703int, 11808946699198967565879780336964378500074int);
    lemma_fundamental_div_mod_converse(11808946699198967565879780336964378500074int * 17, m, 14int, 12764452542857925961377275181747255086492int);
    assert(mod_pow(17, 30814774217, 13427688667394608761327070753331941386769nat) == 12764452542857925961377275181747255086492nat);
    lemma_fundamental_div_mod_converse(12764452542857925961377275181747255086492int * 12764452542857925961377275181747255086492int, m, 12133975753735279768062093133621697713272int, 7381630796703460515799782204542584367896int);
    assert(mod_pow(17, 61629548434, 13427688667394608761327070753331941386769nat) == 7381630796703460515799782204542584367896nat);
    lemma_fundamental_div_mod_converse(7381630796703460515799782204542584367896int * 7381630796703460515799782204542584367896int, m, 4057919018568772930085637974524181401296int, 3830688316164179317894278694389941614192int);
    lemma_fundamental_div_mod_converse(3830688316164179317894278694389941614192int * 17, m, 4int, 11410946705212613358894454791301241894188int);
    assert(mod_pow(17, 123259096869, 13427688667394608761327070753331941386769nat) == 11410946705212613358894454791301241894188nat);
    lemma_fundamental_div_mod_converse(11410946705212613358894454791301241894188int * 11410946705212613358894454791301241894188int, m, 9697104835725041308897687198378933366605int, 371164728805789387486034199064614730099int);
    assert(mod_pow(17, 246518193738, 13427688667394608761327070753331941386769nat) == 371164728805789387486034199064614730099nat);
    lemma_fundamental_div_mod_converse(371164728805789387486034199064614730099int * 371164728805789387486034199064614730099int, m, 10259640309057415708278506469399768184int, 5405864888782151351617355081722531792305int);
    assert(mod_pow(17, 493036387476, 13427688667394608761327070753331941386769nat) == 5405864888782151351617355081722531792305nat);
    lemma_fundamental_div_mod_converse(5405864888782151351617355081722531792305int * 5405864888782151351617355081722531792305int, m, 2176351859179492703296907419867833954288int, 8547070235178179583230809954891983197553int);
    assert(mod_pow(17, 986072774952, 13427688667394608761327070753331941386769nat) == 8547070235178179583230809954891983197553nat);
    lemma_fundamental_div_mod_converse(8547070235178179583230809954891983197553int * 8547070235178179583230809954891983197553int, m, 5440430696196893021957733526811938439150int, 5882594256468617159040440934365903581459int);
    lemma_fundamental_div_mod_converse(5882594256468617159040440934365903581459int * 17, m, 7int, 6010281688204230374398000610896771177420int);
    assert(mod_pow(17, 1972145549905, 13427688667394608761327070753331941386769nat) == 6010281688204230374398000610896771177420nat);
    lemma_fundamental_div_mod_converse(6010281688204230374398000610896771177420int * 6010281688204230374398000610896771177420int, m, 2690223676341177688267542077016319071509int, 916437605099101759789966333773180391979int);
    assert(mod_pow(17, 3944291099810, 13427688667394608761327070753331941386769nat) == 916437605099101759789966333773180391979nat);
    lemma_fundamental_div_mod_converse(916437605099101759789966333773180391979int * 916437605099101759789966333773180391979int, m, 62546720053104706085676074275558528979int, 12548058538080517308427808216485153857590int);
    lemma_fundamental_div_mod_converse(12548058538080517308427808216485153857590int * 17, m, 15int, 11901665136449662823366678380268494777495int);
    assert(mod_pow(17, 7888582199621, 13427688667394608761327070753331941386769nat) == 11901665136449662823366678380268494777495nat);
    lemma_fundamental_div_mod_converse(11901665136449662823366678380268494777495int * 11901665136449662823366678380268494777495int, m, 10549070396913352533076062898468719239096int, 4387165746334868533651491661252836554201int);
    assert(mod_pow(17, 15777164399242, 13427688667394608761327070753331941386769nat) == 4387165746334868533651491661252836554201nat);
    lemma_fundamental_div_mod_converse(4387165746334868533651491661252836554201int * 4387165746334868533651491661252836554201int, m, 1433398089765849989819338021839563571764int, 6011087256329726890563400129158199157885int);
    lemma_fundamental_div_mod_converse(6011087256329726890563400129158199157885int * 17, m, 7int, 8194662685843095810288306922365795976662int);
    assert(mod_pow(17, 31554328798485, 13427688667394608761327070753331941386769nat) == 8194662685843095810288306922365795976662nat);
    lemma_fundamental_div_mod_converse(8194662685843095810288306922365795976662int * 8194662685843095810288306922365795976662int, m, 5001046583527830909377813456025402171183int, 12812135621809105722897498877677899384517int);
    assert(mod_pow(17, 63108657596970, 13427688667394608761327070753331941386769nat) == 12812135621809105722897498877677899384517nat);
    lemma_fundamental_div_mod_converse(12812135621809105722897498877677899384517int * 12812135621809105722897498877677899384517int, m, 12224800802108572349925515944766804505072int, 7667707647944623420139295400211045130921int);
    lemma_fundamental_div_mod_converse(7667707647944623420139295400211045130921int * 17, m, 9int, 9501832008507119290424385023600294744736int);
    assert(mod_pow(17, 126217315193941, 13427688667394608761327070753331941386769nat) == 9501832008507119290424385023600294744736nat);
    lemma_fundamental_div_mod_converse(9501832008507119290424385023600294744736int * 9501832008507119290424385023600294744736int, m, 6723779032583759752733452430921652033124int, 6283550601037290164411783378010516373340int);
    assert(mod_pow(17, 252434630387882, 13427688667394608761327070753331941386769nat) == 6283550601037290164411783378010516373340nat);
    lemma_fundamental_div_mod_converse(6283550601037290164411783378010516373340int * 6283550601037290164411783378010516373340int, m, 2940417307385860619727107347090181118966int, 1519143896672945249983740217272055394746int);
    assert(mod_pow(17, 504869260775764, 13427688667394608761327070753331941386769nat) == 1519143896672945249983740217272055394746nat);
    lemma_fundamental_div_mod_converse(1519143896672945249983740217272055394746int * 1519143896672945249983740217272055394746int, m, 171868609405764925536624103725733995119int, 4733619536889691399254040995194347224005int);
    lemma_fundamental_div_mod_converse(4733619536889691399254040995194347224005int * 17, m, 5int, 13333088790151709980683343151644195874240int);
    assert(mod_pow(17, 1009738521551529, 13427688667394608761327070753331941386769nat) == 13333088790151709980683343151644195874240nat);
    lemma_fundamental_div_mod_converse(13333088790151709980683343151644195874240int * 13333088790151709980683343151644195874240int, m, 13239155381799775435570484417245489125169int, 1897548148879381206802423292531414088639int);
    assert(mod_pow(17, 2019477043103058, 13427688667394608761327070753331941386769nat) == 1897548148879381206802423292531414088639nat);
    lemma_fundamental_div_mod_converse(1897548148879381206802423292531414088639int * 1897548148879381206802423292531414088639int, m, 268154040989856555446255499265922105524int, 7667030102616210260470507996850033460365int);
    assert(mod_pow(17, 4038954086206116, 13427688667394608761327070753331941386769nat) == 7667030102616210260470507996850033460365nat);
    lemma_fundamental_div_mod_converse(7667030102616210260470507996850033460365int * 7667030102616210260470507996850033460365int, m, 4377771338798022841542008629803208741710int, 9621233540685653237205179900895093498235int);
    assert(mod_pow(17, 8077908172412232, 13427688667394608761327070753331941386769nat) == 9621233540685653237205179900895093498235nat);
    lemma_fundamental_div_mod_converse(9621233540685653237205179900895093498235int * 9621233540685653237205179900895093498235int, m, 6893824926786577224900837831426457693478int, 11419038843977812148037658438173501322643int);
    lemma_fundamental_div_mod_converse(11419038843977812148037658438173501322643int * 17, m, 14int, 6136019004098283858061202902302343070165int);
    assert(mod_pow(17, 16155816344824465, 13427688667394608761327070753331941386769nat) == 6136019004098283858061202902302343070165nat);
    lemma_fundamental_div_mod_converse(6136019004098283858061202902302343070165int * 6136019004098283858061202902302343070165int, m, 2803962033322948153585747391807833257021int, 13234383827225538975468601631129367372076int);
    lemma_fundamental_div_mod_converse(13234383827225538975468601631129367372076int * 17, m, 16int, 10141506384520422401733095675888183136988int);
    assert(mod_pow(17, 32311632689648931, 13427688667394608761327070753331941386769nat) == 10141506384520422401733095675888183136988nat);
    lemma_fundamental_div_mod_converse(10141506384520422401733095675888183136988int * 10141506384520422401733095675888183136988int, m, 7659557373936689086904762432627739054634int, 1297208248310165354943784695573357974598int);
    lemma_fundamental_div_mod_converse(1297208248310165354943784695573357974598int * 17, m, 1int, 8624851553878202272717269071415144181397int);
    assert(mod_pow(17, 64623265379297863, 13427688667394608761327070753331941386769nat) == 8624851553878202272717269071415144181397nat);
    lemma_fundamental_div_mod_converse(8624851553878202272717269071415144181397int * 8624851553878202272717269071415144181397int, m, 5539900884585288013605210774972968998278int, 795918598192029384198344610141147887827int);
    lemma_fundamental_div_mod_converse(795918598192029384198344610141147887827int * 17, m, 1int, 102927501869890770044787619067572706290int);
    assert(mod_pow(17, 129246530758595727, 13427688667394608761327070753331941386769nat) == 102927501869890770044787619067572706290nat);
    lemma_fundamental_div_mod_converse(102927501869890770044787619067572706290int * 102927501869890770044787619067572706290int, m, 788972019205442953605298205175185277int, 8705219219534618695842376380920714164087int);
    lemma_fundamental_div_mod_converse(8705219219534618695842376380920714164087int * 17, m, 11int, 284151390747821454722620189000785535020int);
    assert(mod_pow(17, 258493061517191455, 13427688667394608761327070753331941386769nat) == 284151390747821454722620189000785535020nat);
    lemma_fundamental_div_mod_converse(284151390747821454722620189000785535020int * 284151390747821454722620189000785535020int, m, 6013098371872482953322832211163000464int, 10590590924883149797013676216944495939584int);
    lemma_fundamental_div_mod_converse(10590590924883149797013676216944495939584int * 17, m, 13int, 5480093046883632651980575894741192944931int);
    assert(mod_pow(17, 516986123034382911, 13427688667394608761327070753331941386769nat) == 5480093046883632651980575894741192944931nat);
    lemma_fundamental_div_mod_converse(5480093046883632651980575894741192944931int * 5480093046883632651980575894741192944931int, m, 2236529349643416359611740406658083262231int, 9005499335862965010477379412062777773122int);
    assert(mod_pow(17, 1033972246068765822, 13427688667394608761327070753331941386769nat) == 9005499335862965010477379412062777773122nat);
    lemma_fundamental_div_mod_converse(9005499335862965010477379412062777773122int * 9005499335862965010477379412062777773122int, m, 6039685629974026490918220339790230963622int, 4702686887455259866005773336667434509566int);
    lemma_fundamental_div_mod_converse(4702686887455259866005773336667434509566int * 17, m, 5int, 12807233749766373915462792956686679728777int);
    assert(mod_pow(17, 2067944492137531645, 13427688667394608761327070753331941386769nat) == 12807233749766373915462792956686679728777nat);
    lemma_fundamental_div_mod_converse(12807233749766373915462792956686679728777int * 12807233749766373915462792956686679728777int, m, 12215448271409831298487917025170877009820int, 8370076039701442975859451245663450844149int);
    lemma_fundamental_div_mod_converse(8370076039701442975859451245663450844149int * 17, m, 10int, 8014406000978442976339963642959250482843int);
    assert(mod_pow(17, 4135888984275063291, 13427688667394608761327070753331941386769nat) == 8014406000978442976339963642959250482843nat);
    lemma_fundamental_div_mod_converse(8014406000978442976339963642959250482843int * 8014406000978442976339963642959250482843int, m, 4783451950631354809644908239037029387241int, 9742834527494189636543338830544782548320int);
    lemma_fundamental_div_mod_converse(9742834527494189636543338830544782548320int * 17, m, 12int, 4495922958665918685311911079278006680212int);
    assert(mod_pow(17, 8271777968550126583, 13427688667394608761327070753331941386769nat) == 4495922958665918685311911079278006680212nat);
    lemma_fundamental_div_mod_converse(4495922958665918685311911079278006680212int * 4495922958665918685311911079278006680212int, m, 1505346433846185114542414655095368401519int, 10302887407617323367142358782337566262833int);
    assert(mod_pow(17, 16543555937100253166nat, 13427688667394608761327070753331941386769nat) == 10302887407617323367142358782337566262833nat);
    lemma_fundamental_div_mod_converse(10302887407617323367142358782337566262833int * 10302887407617323367142358782337566262833int, m, 7905268848822358653792990149472637659976int, 12148202105783691430734259814349509928345int);
    lemma_fundamental_div_mod_converse(12148202105783691430734259814349509928345int * 17, m, 15int, 5104105787403622902576355543962547980330int);
    assert(mod_pow(17, 33087111874200506333nat, 13427688667394608761327070753331941386769nat) == 5104105787403622902576355543962547980330nat);
    lemma_fundamental_div_mod_converse(5104105787403622902576355543962547980330int * 5104105787403622902576355543962547980330int, m, 1940162341733980589939549534479121020264int, 12716876645050302845757002482751756421884int);
    assert(mod_pow(17, 66174223748401012666nat, 13427688667394608761327070753331941386769nat) == 12716876645050302845757002482751756421884nat);
    lemma_fundamental_div_mod_converse(12716876645050302845757002482751756421884int * 12716876645050302845757002482751756421884int, m, 12043692374110158512228123671821694575899int, 948078599709605454760822049355209229125int);
    assert(mod_pow(17, 132348447496802025332nat, 13427688667394608761327070753331941386769nat) == 948078599709605454760822049355209229125nat);
    lemma_fundamental_div_mod_converse(948078599709605454760822049355209229125int * 948078599709605454760822049355209229125int, m, 66940264515511132339315480999217923158int, 6838597064618874079905685514070148369123int);
    lemma_fundamental_div_mod_converse(6838597064618874079905685514070148369123int * 17, m, 8int, 8834640759363989267780087712536991180939int);
    assert(mod_pow(17, 264696894993604050665nat, 13427688667394608761327070753331941386769nat) == 8834640759363989267780087712536991180939nat);
    lemma_fundamental_div_mod_converse(8834640759363989267780087712536991180939int * 8834640759363989267780087712536991180939int, m, 5812681488254957757057181987815445284159int, 1597758495912134534274501354282109029450int);
    lemma_fundamental_div_mod_converse(1597758495912134534274501354282109029450int * 17, m, 2int, 306517095717069560012381516131970727112int);
    assert(mod_pow(17, 529393789987208101331nat, 13427688667394608761327070753331941386769nat) == 306517095717069560012381516131970727112nat);
    lemma_fundamental_div_mod_converse(306517095717069560012381516131970727112int * 306517095717069560012381516131970727112int, m, 6996939852721276133060427544647014058int, 13407267332544010563556175215462413661942int);
    assert(mod_pow(17, 1058787579974416202662nat, 13427688667394608761327070753331941386769nat) == 13407267332544010563556175215462413661942nat);
    lemma_fundamental_div_mod_converse(13407267332544010563556175215462413661942int * 13407267332544010563556175215462413661942int, m, 13386877055228883299037657732898986396214int, 5584469181350632192349261714869407918798int);
    lemma_fundamental_div_mod_converse(5584469181350632192349261714869407918798int * 17, m, 7int, 942155411198485940647953879456344912183int);
    assert(mod_pow(17, 2117575159948832405325nat, 13427688667394608761327070753331941386769nat) == 942155411198485940647953879456344912183nat);
    lemma_fundamental_div_mod_converse(942155411198485940647953879456344912183int * 942155411198485940647953879456344912183int, m, 66106449206408454106594910998498260981int, 6025096508645496935423262669841959465100int);
    assert(mod_pow(17, 4235150319897664810650nat, 13427688667394608761327070753331941386769nat) == 6025096508645496935423262669841959465100nat);
    lemma_fundamental_div_mod_converse(6025096508645496935423262669841959465100int * 6025096508645496935423262669841959465100int, m, 2703502355296701861775078290222685460582int, 4979878160695249688202220816595552170442int);
    lemma_fundamental_div_mod_converse(4979878160695249688202220816595552170442int * 17, m, 6int, 4091796727451592131475329362132738576900int);
    assert(mod_pow(17, 8470300639795329621301nat, 13427688667394608761327070753331941386769nat) == 4091796727451592131475329362132738576900nat);
    lemma_fundamental_div_mod_converse(4091796727451592131475329362132738576900int * 4091796727451592131475329362132738576900int, m, 1246886256712130448067859304245618185238int, 2743070126292216976193271383850369293978int);
    lemma_fundamental_div_mod_converse(2743070126292216976193271383850369293978int * 17, m, 3int, 6349126144783862311304401265460453837319int);
    assert(mod_pow(17, 16940601279590659242603nat, 13427688667394608761327070753331941386769nat) == 6349126144783862311304401265460453837319nat);
    lemma_fundamental_div_mod_converse(6349126144783862311304401265460453837319int * 6349126144783862311304401265460453837319int, m, 3002110325976128106449481566842829378682int, 11266234824257620061077712802434391649303int);
    lemma_fundamental_div_mod_converse(11266234824257620061077712802434391649303int * 17, m, 14int, 3538350668855018379742127094737478623385int);
    assert(mod_pow(17, 33881202559181318485207nat, 13427688667394608761327070753331941386769nat) == 3538350668855018379742127094737478623385nat);
    lemma_fundamental_div_mod_converse(3538350668855018379742127094737478623385int * 3538350668855018379742127094737478623385int, m, 932396167792294572279130843880894398850int, 8789045310504662222358547661521070042575int);
    lemma_fundamental_div_mod_converse(8789045310504662222358547661521070042575int * 17, m, 11int, 1709194937238561405497531959206835469316int);
    assert(mod_pow(17, 67762405118362636970415nat, 13427688667394608761327070753331941386769nat) == 1709194937238561405497531959206835469316nat);
    lemma_fundamental_div_mod_converse(1709194937238561405497531959206835469316int * 1709194937238561405497531959206835469316int, m, 217561443807943347371869855548694356413int, 6610112824365494478457048391114809008259int);
    lemma_fundamental_div_mod_converse(6610112824365494478457048391114809008259int * 17, m, 8int, 4950408675056536043153256622296222046251int);
    assert(mod_pow(17, 135524810236725273940831nat, 13427688667394608761327070753331941386769nat) == 4950408675056536043153256622296222046251nat);
    lemma_fundamental_div_mod_converse(4950408675056536043153256622296222046251int * 4950408675056536043153256622296222046251int, m, 1825075532886185427566463176487291329623int, 6143812897500029081529454750561073196914int);
    assert(mod_pow(17, 271049620473450547881662nat, 13427688667394608761327070753331941386769nat) == 6143812897500029081529454750561073196914nat);
    lemma_fundamental_div_mod_converse(6143812897500029081529454750561073196914int * 6143812897500029081529454750561073196914int, m, 2811089671087205155567257946190504243968int, 3384840450349259108888187989178395864004int);
    lemma_fundamental_div_mod_converse(3384840450349259108888187989178395864004int * 17, m, 4int, 3831532986358969805790912802704964140992int);
    assert(mod_pow(17, 542099240946901095763325nat, 13427688667394608761327070753331941386769nat) == 3831532986358969805790912802704964140992nat);
    lemma_fundamental_div_mod_converse(3831532986358969805790912802704964140992int * 3831532986358969805790912802704964140992int, m, 1093311394775240155232862027605104675605int, 12497552396687623876958312763858870673819int);
    lemma_fundamental_div_mod_converse(12497552396687623876958312763858870673819int * 17, m, 15int, 11043060732770474488385255685621680653388int);
    assert(mod_pow(17, 1084198481893802191526651nat, 13427688667394608761327070753331941386769nat) == 11043060732770474488385255685621680653388nat);
    lemma_fundamental_div_mod_converse(11043060732770474488385255685621680653388int * 11043060732770474488385255685621680653388int, m, 9081919708473485407282046245101534698799int, 7118557022230472873160029580417817088113int);
    assert(mod_pow(17, 2168396963787604383053302nat, 13427688667394608761327070753331941386769nat) == 7118557022230472873160029580417817088113nat);
    lemma_fundamental_div_mod_converse(7118557022230472873160029580417817088113int * 7118557022230472873160029580417817088113int, m, 3773832960678785859521155797413938176858int, 8241626706830560901983987769350302708967int);
    assert(mod_pow(17, 4336793927575208766106604nat, 13427688667394608761327070753331941386769nat) == 8241626706830560901983987769350302708967nat);
    lemma_fundamental_div_mod_converse(8241626706830560901983987769350302708967int * 8241626706830560901983987769350302708967int, m, 5058533337883995987616913299739611949403int, 6127890361677065662057569609863420558182int);
    lemma_fundamental_div_mod_converse(6127890361677065662057569609863420558182int * 17, m, 7int, 10180315476747854925689188094354559781711int);
    assert(mod_pow(17, 8673587855150417532213209nat, 13427688667394608761327070753331941386769nat) == 10180315476747854925689188094354559781711nat);
    lemma_fundamental_div_mod_converse(10180315476747854925689188094354559781711int * 10180315476747854925689188094354559781711int, m, 7718292088330126238219233859299572871184int, 9749013496398218923490009052764011123025int);
    assert(mod_pow(17, 17347175710300835064426418nat, 13427688667394608761327070753331941386769nat) == 9749013496398218923490009052764011123025nat);
    lemma_fundamental_div_mod_converse(9749013496398218923490009052764011123025int * 9749013496398218923490009052764011123025int, m, 7078155184200885172740329669927346434846int, 3060538850274354842718170608852340198051int);
    assert(mod_pow(17, 34694351420601670128852836nat, 13427688667394608761327070753331941386769nat) == 3060538850274354842718170608852340198051nat);
    lemma_fundamental_div_mod_converse(3060538850274354842718170608852340198051int * 3060538850274354842718170608852340198051int, m, 697580818714062482286341200367218486615int, 9653188957089790380054915640421339601666int);
    lemma_fundamental_div_mod_converse(9653188957089790380054915640421339601666int * 17, m, 12int, 2971948261791131325008716847179476587094int);
    assert(mod_pow(17, 69388702841203340257705673nat, 13427688667394608761327070753331941386769nat) == 2971948261791131325008716847179476587094nat);
    lemma_fundamental_div_mod_converse(2971948261791131325008716847179476587094int * 2971948261791131325008716847179476587094int, m, 657780850416239455262239957998397076842int, 495949521470004334828949358860832261338int);
    lemma_fundamental_div_mod_converse(495949521470004334828949358860832261338int * 17, m, 0int, 8431141864990073692092139100634148442746int);
    assert(mod_pow(17, 138777405682406680515411347nat, 13427688667394608761327070753331941386769nat) == 8431141864990073692092139100634148442746nat);
    lemma_fundamental_div_mod_converse(8431141864990073692092139100634148442746int * 8431141864990073692092139100634148442746int, m, 5293848770875683790422984773394764029340int, 13199309403710598581803103834539036218056int);
    assert(mod_pow(17, 277554811364813361030822694nat, 13427688667394608761327070753331941386769nat) == 13199309403710598581803103834539036218056nat);
    lemma_fundamental_div_mod_converse(13199309403710598581803103834539036218056int * 13199309403710598581803103834539036218056int, m, 12974814433844592953610314965526471856442int, 7925289122110705372302960750908214203238int);
    lemma_fundamental_div_mod_converse(7925289122110705372302960750908214203238int * 17, m, 10int, 453028401935903715879625232120227587356int);
    assert(mod_pow(17, 555109622729626722061645389nat, 13427688667394608761327070753331941386769nat) == 453028401935903715879625232120227587356nat);
    lemma_fundamental_div_mod_converse(453028401935903715879625232120227587356int * 453028401935903715879625232120227587356int, m, 15284442322449279856637955016448334769int, 12949503859903142190485194440181991799375int);
    assert(mod_pow(17, 1110219245459253444123290778nat, 13427688667394608761327070753331941386769nat) == 12949503859903142190485194440181991799375nat);
    lemma_fundamental_div_mod_converse(12949503859903142190485194440181991799375int * 12949503859903142190485194440181991799375int, m, 12488348097080464344819690599015054683729int, 2261788951343038690821529877377290209024int);
    assert(mod_pow(17, 2220438490918506888246581556nat, 13427688667394608761327070753331941386769nat) == 2261788951343038690821529877377290209024nat);
    lemma_fundamental_div_mod_converse(2261788951343038690821529877377290209024int * 2261788951343038690821529877377290209024int, m, 380980627949727868736272258477114441343int, 13393192886209891657263596933461484241809int);
    lemma_fundamental_div_mod_converse(13393192886209891657263596933461484241809int * 17, m, 16int, 12841260387254417992248015815534169922449int);
    assert(mod_pow(17, 4440876981837013776493163113nat, 13427688667394608761327070753331941386769nat) == 12841260387254417992248015815534169922449nat);
    lemma_fundamental_div_mod_converse(12841260387254417992248015815534169922449int * 12841260387254417992248015815534169922449int, m, 12280443225771099467090795560675538069667int, 11992633957832473271429429367653360121678int);
    assert(mod_pow(17, 8881753963674027552986326226nat, 13427688667394608761327070753331941386769nat) == 11992633957832473271429429367653360121678nat);
    lemma_fundamental_div_mod_converse(11992633957832473271429429367653360121678int * 11992633957832473271429429367653360121678int, m, 10710947565815344543733180980260886393842int, 6308285188364511902521536244013983659186int);
    assert(mod_pow(17, 17763507927348055105972652452nat, 13427688667394608761327070753331941386769nat) == 6308285188364511902521536244013983659186nat);
    lemma_fundamental_div_mod_converse(6308285188364511902521536244013983659186int * 6308285188364511902521536244013983659186int, m, 2963612204859114795707397261759817421954int, 10469620757547465967520017686573016455970int);
    assert(mod_pow(17, 35527015854696110211945304904nat, 13427688667394608761327070753331941386769nat) == 10469620757547465967520017686573016455970nat);
    lemma_fundamental_div_mod_converse(10469620757547465967520017686573016455970int * 10469620757547465967520017686573016455970int, m, 8163203774081627911052179047625980524357int, 10896373434594626125195926342970586608367int);
    lemma_fundamental_div_mod_converse(10896373434594626125195926342970586608367int * 17, m, 13int, 10678395711978730231078828037184734314242int);
    assert(mod_pow(17, 71054031709392220423890609809nat, 13427688667394608761327070753331941386769nat) == 10678395711978730231078828037184734314242nat);
    lemma_fundamental_div_mod_converse(10678395711978730231078828037184734314242int * 10678395711978730231078828037184734314242int, m, 8492015104467770973228322232881403442933int, 7029190651014980914866304659310831281087int);
    assert(mod_pow(17, 142108063418784440847781219618nat, 13427688667394608761327070753331941386769nat) == 7029190651014980914866304659310831281087nat);
    lemma_fundamental_div_mod_converse(7029190651014980914866304659310831281087int * 7029190651014980914866304659310831281087int, m, 3679674323124100438134510920150222500693int, 8915836434551238085387839455244120370652int);
    assert(mod_pow(17, 284216126837568881695562439236nat, 13427688667394608761327070753331941386769nat) == 8915836434551238085387839455244120370652nat);
    lemma_fundamental_div_mod_converse(8915836434551238085387839455244120370652int * 8915836434551238085387839455244120370652int, m, 5920016564034269708463234128204989656208int, 10795201850638795047479416876285792993152int);
    lemma_fundamental_div_mod_converse(10795201850638795047479416876285792993152int * 17, m, 13int, 8958478784729601909898167103543242855587int);
    assert(mod_pow(17, 568432253675137763391124878473nat, 13427688667394608761327070753331941386769nat) == 8958478784729601909898167103543242855587nat);
    lemma_fundamental_div_mod_converse(8958478784729601909898167103543242855587int * 8958478784729601909898167103543242855587int, m, 5976780079160281541695040817817842424122int, 8128484602869748825716706507740799872751int);
    lemma_fundamental_div_mod_converse(8128484602869748825716706507740799872751int * 17, m, 10int, 3907351574839642423913303098274183969077int);
    assert(mod_pow(17, 1136864507350275526782249756947nat, 13427688667394608761327070753331941386769nat) == 3907351574839642423913303098274183969077nat);
    lemma_fundamental_div_mod_converse(3907351574839642423913303098274183969077int * 3907351574839642423913303098274183969077int, m, 1137008513347084162700181595280155387663int, 699644971914161528727645305154278201082int);
    assert(mod_pow(17, 2273729014700551053564499513894nat, 13427688667394608761327070753331941386769nat) == 699644971914161528727645305154278201082nat);
    lemma_fundamental_div_mod_converse(699644971914161528727645305154278201082int * 699644971914161528727645305154278201082int, m, 36454753967701782509607207233829540923int, 1073653637395642117123732065558769722937int);
    lemma_fundamental_div_mod_converse(1073653637395642117123732065558769722937int * 17, m, 1int, 4824423168331307229776374361167143903160int);
    assert(mod_pow(17, 4547458029401102107128999027789nat, 13427688667394608761327070753331941386769nat) == 4824423168331307229776374361167143903160nat);
    lemma_fundamental_div_mod_converse(4824423168331307229776374361167143903160int * 4824423168331307229776374361167143903160int, m, 1733363014563248552426456367752114964032int, 13403680131432720753096997394060822292992int);
    lemma_fundamental_div_mod_converse(13403680131432720753096997394060822292992int * 17, m, 16int, 13019543556042512621415823645722916792560int);
    assert(mod_pow(17, 9094916058802204214257998055579nat, 13427688667394608761327070753331941386769nat) == 13019543556042512621415823645722916792560nat);
    lemma_fundamental_div_mod_converse(13019543556042512621415823645722916792560int * 13019543556042512621415823645722916792560int, m, 12623804334940546711482800621367967657919int, 10730927386774741607593030153464206679889int);
    lemma_fundamental_div_mod_converse(10730927386774741607593030153464206679889int * 17, m, 13int, 7865812899040693431829592815576275530116int);
    assert(mod_pow(17, 18189832117604408428515996111159nat, 13427688667394608761327070753331941386769nat) == 7865812899040693431829592815576275530116nat);
    lemma_fundamental_div_mod_converse(7865812899040693431829592815576275530116int * 7865812899040693431829592815576275530116int, m, 4607718729207017580511595196109779514877int, 4993280575115727940359101178377376511043int);
    lemma_fundamental_div_mod_converse(4993280575115727940359101178377376511043int * 17, m, 6int, 4319637772599722418142295512423752367117int);
    assert(mod_pow(17, 36379664235208816857031992222319nat, 13427688667394608761327070753331941386769nat) == 4319637772599722418142295512423752367117nat);
    lemma_fundamental_div_mod_converse(4319637772599722418142295512423752367117int * 4319637772599722418142295512423752367117int, m, 1389611492242824900977810181187196049726int, 9270326524146811003183751234533620416395int);
    lemma_fundamental_div_mod_converse(9270326524146811003183751234533620416395int * 17, m, 11int, 9890975569155090679525992700420191824256int);
    assert(mod_pow(17, 72759328470417633714063984444639nat, 13427688667394608761327070753331941386769nat) == 9890975569155090679525992700420191824256nat);
    lemma_fundamental_div_mod_converse(9890975569155090679525992700420191824256int * 9890975569155090679525992700420191824256int, m, 7285795800969015060726094906396271884053int, 10279283313299243003209892218467993658779int);
    lemma_fundamental_div_mod_converse(10279283313299243003209892218467993658779int * 17, m, 13int, 187863649957217157316247920640654171246int);
    assert(mod_pow(17, 145518656940835267428127968889279nat, 13427688667394608761327070753331941386769nat) == 187863649957217157316247920640654171246nat);
    lemma_fundamental_div_mod_converse(187863649957217157316247920640654171246int * 187863649957217157316247920640654171246int, m, 2628356364930206166244010517166938290int, 2810523105021853415856937027838647707506int);
    assert(mod_pow(17, 291037313881670534856255937778558nat, 13427688667394608761327070753331941386769nat) == 2810523105021853415856937027838647707506nat);
    lemma_fundamental_div_mod_converse(2810523105021853415856937027838647707506int * 2810523105021853415856937027838647707506int, m, 588265063297326264812103165881655811347int, 3600357839526803755103115781598302872193int);
    assert(mod_pow(17, 582074627763341069712511875557116nat, 13427688667394608761327070753331941386769nat) == 3600357839526803755103115781598302872193nat);
    lemma_fundamental_div_mod_converse(3600357839526803755103115781598302872193int * 3600357839526803755103115781598302872193int, m, 965361715908569612126422135790451263195int, 4611650991211867710844026212137182962294int);
    lemma_fundamental_div_mod_converse(4611650991211867710844026212137182962294int * 17, m, 5int, 11259623513628707277713091839672403425153int);
    assert(mod_pow(17, 1164149255526682139425023751114233nat, 13427688667394608761327070753331941386769nat) == 11259623513628707277713091839672403425153nat);
    lemma_fundamental_div_mod_converse(11259623513628707277713091839672403425153int * 11259623513628707277713091839672403425153int, m, 9441619090894485813362541483147858989738int, 4547974313314712594812329650591013096887int);
    assert(mod_pow(17, 2328298511053364278850047502228466nat, 13427688667394608761327070753331941386769nat) == 4547974313314712594812329650591013096887nat);
    lemma_fundamental_div_mod_converse(4547974313314712594812329650591013096887int * 4547974313314712594812329650591013096887int, m, 1540404373896150782830865183955027717435int, 8904319865539387934113212581755869473254int);
    lemma_fundamental_div_mod_converse(8904319865539387934113212581755869473254int * 17, m, 11int, 3668862372828898505326835603198425790859int);
    assert(mod_pow(17, 4656597022106728557700095004456933nat, 13427688667394608761327070753331941386769nat) == 3668862372828898505326835603198425790859nat);
    lemma_fundamental_div_mod_converse(3668862372828898505326835603198425790859int * 3668862372828898505326835603198425790859int, m, 1002447364112997641996951809940405492328int, 8275024381850793270141699078479097749649int);
    assert(mod_pow(17, 9313194044213457115400190008913866nat, 13427688667394608761327070753331941386769nat) == 8275024381850793270141699078479097749649nat);
    lemma_fundamental_div_mod_converse(8275024381850793270141699078479097749649int * 8275024381850793270141699078479097749649int, m, 5099613955639291180377599333648437964842int, 5217654273766360412837612576414333647703int);
    assert(mod_pow(17, 18626388088426914230800380017827732nat, 13427688667394608761327070753331941386769nat) == 5217654273766360412837612576414333647703nat);
    lemma_fundamental_div_mod_converse(5217654273766360412837612576414333647703int * 5217654273766360412837612576414333647703int, m, 2027446181907541680753797664886210186070int, 4129722610004533105897441015984391068379int);
    lemma_fundamental_div_mod_converse(4129722610004533105897441015984391068379int * 17, m, 5int, 3066841033104018993621143505074941228598int);
    assert(mod_pow(17, 37252776176853828461600760035655465nat, 13427688667394608761327070753331941386769nat) == 3066841033104018993621143505074941228598nat);
    lemma_fundamental_div_mod_converse(3066841033104018993621143505074941228598int * 3066841033104018993621143505074941228598int, m, 700456657531030629957975332906092355826int, 8554306357520758544455607304105056579410int);
    lemma_fundamental_div_mod_converse(8554306357520758544455607304105056579410int * 17, m, 10int, 11146321403906807642474616636466547982280int);
    assert(mod_pow(17, 74505552353707656923201520071310931nat, 13427688667394608761327070753331941386769nat) == 11146321403906807642474616636466547982280nat);
    lemma_fundamental_div_mod_converse(11146321403906807642474616636466547982280int * 11146321403906807642474616636466547982280int, m, 9252558941202913909827403624020157347507int, 5464291984374895451764968417480969063517int);
    lemma_fundamental_div_mod_converse(5464291984374895451764968417480969063517int * 17, m, 6int, 12326831730005570112042038577184825759175int);
    assert(mod_pow(17, 149011104707415313846403040142621863nat, 13427688667394608761327070753331941386769nat) == 12326831730005570112042038577184825759175nat);
    lemma_fundamental_div_mod_converse(12326831730005570112042038577184825759175int * 12326831730005570112042038577184825759175int, m, 11316227555144478688209081821268162139328int, 3165940868094860835442136464136982929393int);
    lemma_fundamental_div_mod_converse(3165940868094860835442136464136982929393int * 17, m, 4int, 110240088034199157208036877000944252605int);
    assert(mod_pow(17, 298022209414830627692806080285243727nat, 13427688667394608761327070753331941386769nat) == 110240088034199157208036877000944252605nat);
    lemma_fundamental_div_mod_converse(110240088034199157208036877000944252605int * 110240088034199157208036877000944252605int, m, 905060975929375501271611434221932145int, 6235753758902982812900520417256130496520int);
    lemma_fundamental_div_mod_converse(6235753758902982812900520417256130496520int * 17, m, 7int, 12013993229588446490019351820030628733457int);
    assert(mod_pow(17, 596044418829661255385612160570487455nat, 13427688667394608761327070753331941386769nat) == 12013993229588446490019351820030628733457nat);
    lemma_fundamental_div_mod_converse(12013993229588446490019351820030628733457int * 12013993229588446490019351820030628733457int, m, 10749134634844250669964917664687797727529int, 13090732827246374915342424347636883507048int);
    assert(mod_pow(17, 1192088837659322510771224321140974910nat, 13427688667394608761327070753331941386769nat) == 13090732827246374915342424347636883507048nat);
    lemma_fundamental_div_mod_converse(13090732827246374915342424347636883507048int * 13090732827246374915342424347636883507048int, m, 12762232592602735500850632364173579760367int, 5759152980462632967417852223507181290081int);
    assert(mod_pow(17, 2384177675318645021542448642281949820nat, 13427688667394608761327070753331941386769nat) == 5759152980462632967417852223507181290081nat);
    lemma_fundamental_div_mod_converse(5759152980462632967417852223507181290081int * 5759152980462632967417852223507181290081int, m, 2470108138037968567790333506840439795370int, 8549780016578167373485914239255083527031int);
    assert(mod_pow(17, 4768355350637290043084897284563899640nat, 13427688667394608761327070753331941386769nat) == 8549780016578167373485914239255083527031nat);
    lemma_fundamental_div_mod_converse(8549780016578167373485914239255083527031int * 8549780016578167373485914239255083527031int, m, 5443880934578058522943748348858210166711int, 9152610451441800400105610708270888028202int);
    assert(mod_pow(17, 9536710701274580086169794569127799280nat, 13427688667394608761327070753331941386769nat) == 9152610451441800400105610708270888028202nat);
    lemma_fundamental_div_mod_converse(9152610451441800400105610708270888028202int * 9152610451441800400105610708270888028202int, m, 6238622308786053290616026831706306520452int, 2412737001597829289104392577343606653216int);
    assert(mod_pow(17, 19073421402549160172339589138255598560nat, 13427688667394608761327070753331941386769nat) == 2412737001597829289104392577343606653216nat);
    lemma_fundamental_div_mod_converse(2412737001597829289104392577343606653216int * 2412737001597829289104392577343606653216int, m, 433529550995227072645076571762208079682int, 5601893507736334235977250777120950615198int);
    lemma_fundamental_div_mod_converse(5601893507736334235977250777120950615198int * 17, m, 7int, 1238368959755420682323767937732570750983int);
    assert(mod_pow(17, 38146842805098320344679178276511197121nat, 13427688667394608761327070753331941386769nat) == 1238368959755420682323767937732570750983nat);
    lemma_fundamental_div_mod_converse(1238368959755420682323767937732570750983int * 1238368959755420682323767937732570750983int, m, 114208611658500780962731816840689865818int, 5155274046183410713973445977525144904247int);
    lemma_fundamental_div_mod_converse(5155274046183410713973445977525144904247int * 17, m, 6int, 7073526780750329569586157097935815051585int);
    assert(mod_pow(17, 76293685610196640689358356553022394243nat, 13427688667394608761327070753331941386769nat) == 7073526780750329569586157097935815051585nat);
    lemma_fundamental_div_mod_converse(7073526780750329569586157097935815051585int * 7073526780750329569586157097935815051585int, m, 3726239292357709408722662752741262972745int, 12372955090569698862724093856549460401320int);
    assert(mod_pow(17, 152587371220393281378716713106044788486nat, 13427688667394608761327070753331941386769nat) == 12372955090569698862724093856549460401320nat);
    lemma_fundamental_div_mod_converse(12372955090569698862724093856549460401320int * 12372955090569698862724093856549460401320int, m, 11401069943257693412741598699281236906423int, 5928557101334881252457783680061354425113int);
    assert(mod_pow(17, 305174742440786562757433426212089576972nat, 13427688667394608761327070753331941386769nat) == 5928557101334881252457783680061354425113nat);
    lemma_fundamental_div_mod_converse(5928557101334881252457783680061354425113int * 5928557101334881252457783680061354425113int, m, 2617560637158265228557771907663864898848int, 8086824990233952433573350983079694520657int);
    assert(mod_pow(17, 610349484881573125514866852424179153944nat, 13427688667394608761327070753331941386769nat) == 8086824990233952433573350983079694520657nat);
    lemma_fundamental_div_mod_converse(8086824990233952433573350983079694520657int * 8086824990233952433573350983079694520657int, m, 4870290043398911771277077000830888902548int, 3236340864352405644842122077993382124237int);
    assert(mod_pow(17, 1220698969763146251029733704848358307888nat, 13427688667394608761327070753331941386769nat) == 3236340864352405644842122077993382124237nat);
}

#[verifier::rlimit(100)]
pub proof fn lemma_pow_p134276_41_digits_by_1853641()
    ensures
        mod_pow(17, 7243953207441251440449941899932048nat, 13427688667394608761327070753331941386769nat) == 2667543545659835767658605482012024096425nat,
{
    let m = 13427688667394608761327070753331941386769int;
    lemma_fundamental_div_mod_converse(1, m, 0, 1);
    assert(mod_pow(17, 0, 13427688667394608761327070753331941386769nat) == 1);
    lemma_fundamental_div_mod_converse(1int * 1int, m, 0int, 1int);
    lemma_fundamental_div_mod_converse(1int * 17, m, 0int, 17int);
    assert(mod_pow(17, 1, 13427688667394608761327070753331941386769nat) == 17);
    lemma_fundamental_div_mod_converse(17int * 17int, m, 0int, 289int);
    assert(mod_pow(17, 2, 13427688667394608761327070753331941386769nat) == 289);
    lemma_fundamental_div_mod_converse(289int * 289int, m, 0int, 83521int);
    lemma_fundamental_div_mod_converse(83521int * 17, m, 0int, 1419857int);
    assert(mod_pow(17, 5, 13427688667394608761327070753331941386769nat) == 1419857);
    lemma_fundamental_div_mod_converse(1419857int * 1419857int, m, 0int, 2015993900449int);
    lemma_fundamental_div_mod_converse(2015993900449int * 17, m, 0int, 34271896307633int);
    assert(mod_pow(17, 11, 13427688667394608761327070753331941386769nat) == 34271896307633);
    lemma_fundamental_div_mod_converse(34271896307633int * 34271896307633int, m, 0int, 1174562876521148458974062689int);
    assert(mod_pow(17, 22, 13427688667394608761327070753331941386769nat) == 1174562876521148458974062689nat);
    lemma_fundamental_div_mod_converse(1174562876521148458974062689int * 1174562876521148458974062689int, m, 102742771676826int, 6377265037523078970299103290888161595527int);
    assert(mod_pow(17, 44, 13427688667394608761327070753331941386769nat) == 6377265037523078970299103290888161595527nat);
    lemma_fundamental_div_mod_converse(6377265037523078970299103290888161595527int * 6377265037523078970299103290888161595527int, m, 3028779588669551245353793607652831665881int, 7984503610652928574149474753810744279240int);
    lemma_fundamental_div_mod_converse(7984503610652928574149474753810744279240int * 17, m, 10int, 1459674707153698147270363281463238879390int);
    assert(mod_pow(17, 89, 13427688667394608761327070753331941386769nat) == 1459674707153698147270363281463238879390nat);
    lemma_fundamental_div_mod_converse(1459674707153698147270363281463238879390int * 1459674707153698147270363281463238879390int, m, 158675875162188071502745686858393850606int, 1683643529828535170695016542365515740086int);
    assert(mod_pow(17, 178, 13427688667394608761327070753331941386769nat) == 1683643529828535170695016542365515740086nat);
    lemma_fundamental_div_mod_converse(1683643529828535170695016542365515740086int * 1683643529828535170695016542365515740086int, m, 211105247205847032836636160553214935621int, 11823903826033016707353868910258511088847int);
    lemma_fundamental_div_mod_converse(11823903826033016707353868910258511088847int * 17, m, 14int, 13018723699036761366436780927747509095633int);
    assert(mod_pow(17, 357, 13427688667394608761327070753331941386769nat) == 13018723699036761366436780927747509095633nat);
    lemma_fundamental_div_mod_converse(13018723699036761366436780927747509095633int * 13018723699036761366436780927747509095633int, m, 12622214511378541058062347596346318539476int, 10974464411857578462610272626587429077645int);
    assert(mod_pow(17, 714, 13427688667394608761327070753331941386769nat) == 10974464411857578462610272626587429077645nat);
    lemma_fundamental_div_mod_converse(10974464411857578462610272626587429077645int * 10974464411857578462610272626587429077645int, m, 8969441585250681127003613886837200809510int, 3260236026241430371405079725976635372835int);
    assert(mod_pow(17, 1428, 13427688667394608761327070753331941386769nat) == 3260236026241430371405079725976635372835nat);
    lemma_fundamental_div_mod_converse(3260236026241430371405079725976635372835int * 3260236026241430371405079725976635372835int, m, 791583660456204023602695860719535937272int, 1842882702184893730072553218359581183057int);
    lemma_fundamental_div_mod_converse(1842882702184893730072553218359581183057int * 17, m, 2int, 4473628602353975888579263205448997338431int);
    assert(mod_pow(17, 2857, 13427688667394608761327070753331941386769nat) == 4473628602353975888579263205448997338431nat);
    lemma_fundamental_div_mod_converse(4473628602353975888579263205448997338431int * 4473628602353975888579263205448997338431int, m, 1490454043695280554218177012916266969024int, 8561624543246050223369034979667023098305int);
    assert(mod_pow(17, 5714, 13427688667394608761327070753331941386769nat) == 8561624543246050223369034979667023098305nat);
    lemma_fundamental_div_mod_converse(8561624543246050223369034979667023098305int * 8561624543246050223369034979667023098305int, m, 5458974856745461270467101066395089690769int, 3325383656429175384102240199404455837664int);
    assert(mod_pow(17, 11428, 13427688667394608761327070753331941386769nat) == 3325383656429175384102240199404455837664nat);
    lemma_fundamental_div_mod_converse(3325383656429175384102240199404455837664int * 3325383656429175384102240199404455837664int, m, 823535363111148433535548353970337951478int, 420689100247999286386445253289967782314int);
    lemma_fundamental_div_mod_converse(420689100247999286386445253289967782314int * 17, m, 0int, 7151714704215987868569569305929452299338int);
    assert(mod_pow(17, 22857, 13427688667394608761327070753331941386769nat) == 7151714704215987868569569305929452299338nat);
    lemma_fundamental_div_mod_converse(7151714704215987868569569305929452299338int * 7151714704215987868569569305929452299338int, m, 3809071276331825749572693832546319910583int, 10332962586390810814321440379258055961917int);
    lemma_fundamental_div_mod_converse(10332962586390810814321440379258055961917int * 17, m, 13int, 1100411292513869946212566654071713324592int);
    assert(mod_pow(17, 45715, 13427688667394608761327070753331941386769nat) == 1100411292513869946212566654071713324592nat);
    lemma_fundamental_div_mod_converse(1100411292513869946212566654071713324592int * 1100411292513869946212566654071713324592int, m, 90179705732408767736857650576291730327int, 7753018017357293741251176030786598123001int);
    lemma_fundamental_div_mod_converse(7753018017357293741251176030786598123001int * 17, m, 9int, 10952108288522514749326355743384695610096int);
    assert(mod_pow(17, 91431, 13427688667394608761327070753331941386769nat) == 10952108288522514749326355743384695610096nat);
    lemma_fundamental_div_mod_converse(10952108288522514749326355743384695610096int * 10952108288522514749326355743384695610096int, m, 8932935439200748084264036803037227864539int, 2818120762270030258844018727609518244725int);
    lemma_fundamental_div_mod_converse(2818120762270030258844018727609518244725int * 17, m, 3int, 7624986956406688116367106109365986000018int);
    assert(mod_pow(17, 182863, 13427688667394608761327070753331941386769nat) == 7624986956406688116367106109365986000018nat);
    lemma_fundamental_div_mod_converse(7624986956406688116367106109365986000018int * 7624986956406688116367106109365986000018int, m, 4329890834194712435562099485995458630843int, 2756541011410966248465904995980040484057int);
    assert(mod_pow(17, 365726, 13427688667394608761327070753331941386769nat) == 2756541011410966248465904995980040484057nat);
    lemma_fundamental_div_mod_converse(2756541011410966248465904995980040484057int * 2756541011410966248465904995980040484057int, m, 565884310830163355490907087449517645621int, 1237808780431255082456414640108230990700int);
    assert(mod_pow(17, 731452, 13427688667394608761327070753331941386769nat) == 1237808780431255082456414640108230990700nat);
    lemma_fundamental_div_mod_converse(1237808780431255082456414640108230990700int * 1237808780431255082456414640108230990700int, m, 114105309920772837661268906193249070322int, 12807772927877952735308281773398805120382int);
    assert(mod_pow(17, 1462904, 13427688667394608761327070753331941386769nat) == 12807772927877952735308281773398805120382nat);
    lemma_fundamental_div_mod_converse(12807772927877952735308281773398805120382int * 12807772927877952735308281773398805120382int, m, 12216476821540135362476824574833749031565int, 4736968842547195358889529008904657462439int);
    lemma_fundamental_div_mod_converse(4736968842547195358889529008904657462439int * 17, m, 5int, 13390026986329277294486639384719469927618int);
    assert(mod_pow(17, 2925809, 13427688667394608761327070753331941386769nat) == 13390026986329277294486639384719469927618nat);
    lemma_fundamental_div_mod_converse(13390026986329277294486639384719469927618int * 13390026986329277294486639384719469927618int, m, 13352470937905258918284708500139420287403int, 4577563746112546296156366867365797583017int);
    assert(mod_pow(17, 5851618, 13427688667394608761327070753331941386769nat) == 4577563746112546296156366867365797583017nat);
    lemma_fundamental_div_mod_converse(4577563746112546296156366867365797583017int * 4577563746112546296156366867365797583017int, m, 1560513530568003293335891071504114714775int, 13040061626091078692648614532006613010314int);
    lemma_fundamental_div_mod_converse(13040061626091078692648614532006613010314int * 17, m, 16int, 6838028965234597593793314990801358987034int);
    assert(mod_pow(17, 11703237, 13427688667394608761327070753331941386769nat) == 6838028965234597593793314990801358987034nat);
    lemma_fundamental_div_mod_converse(6838028965234597593793314990801358987034int * 6838028965234597593793314990801358987034int, m, 3482255307492170130644936046518764153542int, 8505201682631935117607480387380656831358int);
    lemma_fundamental_div_mod_converse(8505201682631935117607480387380656831358int * 17, m, 10int, 10311541930796809386056459052151752265396int);
    assert(mod_pow(17, 23406475, 13427688667394608761327070753331941386769nat) == 10311541930796809386056459052151752265396nat);
    lemma_fundamental_div_mod_converse(10311541930796809386056459052151752265396int * 10311541930796809386056459052151752265396int, m, 7918555428587526718870544031877993091112int, 2866039420479471823392861824499770739688int);
    assert(mod_pow(17, 46812950, 13427688667394608761327070753331941386769nat) == 2866039420479471823392861824499770739688nat);
    lemma_fundamental_div_mod_converse(2866039420479471823392861824499770739688int * 2866039420479471823392861824499770739688int, m, 611734615182741997567210901361963959144int, 11226284210684338307410431212633640171608int);
    assert(mod_pow(17, 93625900, 13427688667394608761327070753331941386769nat) == 11226284210684338307410431212633640171608nat);
    lemma_fundamental_div_mod_converse(11226284210684338307410431212633640171608int * 11226284210684338307410431212633640171608int, m, 9385789341771663975369014242389336338173int, 11155794366337391842684762487705717472627int);
    lemma_fundamental_div_mod_converse(11155794366337391842684762487705717472627int * 17, m, 14int, 1660862884211138667061971744350017619893int);
    assert(mod_pow(17, 187251801, 13427688667394608761327070753331941386769nat) == 1660862884211138667061971744350017619893nat);
    lemma_fundamental_div_mod_converse(1660862884211138667061971744350017619893int * 1660862884211138667061971744350017619893int, m, 205431149654840092781711155329313286411int, 3332607941782212024349086368836406435390int);
    lemma_fundamental_div_mod_converse(3332607941782212024349086368836406435390int * 17, m, 4int, 2943580340719169368626185256891143854554int);
    assert(mod_pow(17, 374503603, 13427688667394608761327070753331941386769nat) == 2943580340719169368626185256891143854554nat);
    lemma_fundamental_div_mod_converse(2943580340719169368626185256891143854554int * 2943580340719169368626185256891143854554int, m, 645283446532991226092482449959161295714int, 6453786036063929854711580599904650530850int);
    assert(mod_pow(17, 749007206, 13427688667394608761327070753331941386769nat) == 6453786036063929854711580599904650530850nat);
    lemma_fundamental_div_mod_converse(6453786036063929854711580599904650530850int * 6453786036063929854711580599904650530850int, m, 3101900500600110867088267437070253276315int, 3873012604961143983505115054119959646265int);
    assert(mod_pow(17, 1498014412, 13427688667394608761327070753331941386769nat) == 3873012604961143983505115054119959646265nat);
    lemma_fundamental_div_mod_converse(3873012604961143983505115054119959646265int * 3873012604961143983505115054119959646265int, m, 1117111590069240046735335728856601318581int, 9558161528011286024788889429092821195436int);
    lemma_fundamental_div_mod_converse(9558161528011286024788889429092821195436int * 17, m, 12int, 1356481967456557285486271254594663681184int);
    assert(mod_pow(17, 2996028825, 13427688667394608761327070753331941386769nat) == 1356481967456557285486271254594663681184nat);
    lemma_fundamental_div_mod_converse(1356481967456557285486271254594663681184int * 1356481967456557285486271254594663681184int, m, 137033511396704020285808411948482366904int, 2493971738445552261886238224248766548680int);
    lemma_fundamental_div_mod_converse(2493971738445552261886238224248766548680int * 17, m, 3int, 2114453551390562168084837552233207167253int);
    assert(mod_pow(17, 5992057651, 13427688667394608761327070753331941386769nat) == 2114453551390562168084837552233207167253nat);
    lemma_fundamental_div_mod_converse(2114453551390562168084837552233207167253int * 2114453551390562168084837552233207167253int, m, 332962279043937479983937686371030752158int, 5318500383441946227828978256897056168507int);
    assert(mod_pow(17, 11984115302, 13427688667394608761327070753331941386769nat) == 5318500383441946227828978256897056168507nat);
    lemma_fundamental_div_mod_converse(5318500383441946227828978256897056168507int * 5318500383441946227828978256897056168507int, m, 2106575973671318642402297935444780404236int, 12260399246753388575700781127684936655565int);
    lemma_fundamental_div_mod_converse(12260399246753388575700781127684936655565int * 17, m, 15int, 7011457183888474367007217870664802343070int);
    assert(mod_pow(17, 23968230605, 13427688667394608761327070753331941386769nat) == 7011457183888474367007217870664802343070nat);
    lemma_fundamental_div_mod_converse(7011457183888474367007217870664802343070int * 7011457183888474367007217870664802343070int, m, 3661131342795719956088949458717417416894int, 8530992713460381662064522511333808349414int);
    lemma_fundamental_div_mod_converse(8530992713460381662064522511333808349414int * 17, m, 10int, 10749989454880400641826175159355328072348int);
    assert(mod_pow(17, 47936461211, 13427688667394608761327070753331941386769nat) == 10749989454880400641826175159355328072348nat);
    lemma_fundamental_div_mod_converse(10749989454880400641826175159355328072348int * 10749989454880400641826175159355328072348int, m, 8606266956475578300156503525966620314900int, 6386733400378976297764577430552048675004int);
    assert(mod_pow(17, 95872922422, 13427688667394608761327070753331941386769nat) == 6386733400378976297764577430552048675004nat);
    lemma_fundamental_div_mod_converse(6386733400378976297764577430552048675004int * 6386733400378976297764577430552048675004int, m, 3037779958852069992730607577895976293048int, 9363763478880631215596271930170960518104int);
    lemma_fundamental_div_mod_converse(9363763478880631215596271930170960518104int * 17, m, 11int, 11479403799630034290538844526254973553309int);
    assert(mod_pow(17, 191745844845, 13427688667394608761327070753331941386769nat) == 11479403799630034290538844526254973553309nat);
    lemma_fundamental_div_mod_converse(11479403799630034290538844526254973553309int * 11479403799630034290538844526254973553309int, m, 9813804509404764799694508057939239050419int, 10330421249288636603515879711335894343270int);
    lemma_fundamental_div_mod_converse(10330421249288636603515879711335894343270int * 17, m, 13int, 1057208561776908362518035299394965807593int);
    assert(mod_pow(17, 383491689691, 13427688667394608761327070753331941386769nat) == 1057208561776908362518035299394965807593nat);
    lemma_fundamental_div_mod_converse(1057208561776908362518035299394965807593int * 1057208561776908362518035299394965807593int, m, 83237701646181065660121153455898116702int, 12894806963251811308722745435153415737811int);
    lemma_fundamental_div_mod_converse(12894806963251811308722745435153415737811int * 17, m, 16int, 4368699696967052067053540344297005354483int);
    assert(mod_pow(17, 766983379383, 13427688667394608761327070753331941386769nat) == 4368699696967052067053540344297005354483nat);
    lemma_fundamental_div_mod_converse(4368699696967052067053540344297005354483int * 4368699696967052067053540344297005354483int, m, 1421356833259316489651890259618321351597int, 3430977225762717288218132265581875377196int);
    lemma_fundamental_div_mod_converse(3430977225762717288218132265581875377196int * 17, m, 4int, 4615858168387758854399965501564115865256int);
    assert(mod_pow(17, 1533966758767, 13427688667394608761327070753331941386769nat) == 4615858168387758854399965501564115865256nat);
    lemma_fundamental_div_mod_converse(4615858168387758854399965501564115865256int * 4615858168387758854399965501564115865256int, m, 1586732248447792934490850187127857561046int, 13003212210008738073452896382014233745162int);
    lemma_fundamental_div_mod_converse(13003212210008738073452896382014233745162int * 17, m, 16int, 6211588891834807067466106440930911479450int);
    assert(mod_pow(17, 3067933517535, 13427688667394608761327070753331941386769nat) == 6211588891834807067466106440930911479450nat);
    lemma_fundamental_div_mod_converse(6211588891834807067466106440930911479450int * 6211588891834807067466106440930911479450int, m, 2873453318504147042848050346103839550305int, 10161812683632883201664852503076735387955int);
    lemma_fundamental_div_mod_converse(10161812683632883201664852503076735387955int * 17, m, 12int, 11618551613023709292377643512321204954007int);
    assert(mod_pow(17, 6135867035071, 13427688667394608761327070753331941386769nat) == 11618551613023709292377643512321204954007nat);
    lemma_fundamental_div_mod_converse(11618551613023709292377643512321204954007int * 11618551613023709292377643512321204954007int, m, 10053162903030597267482141325708474093100int, 8454027036050594188652421468115371162149int);
    assert(mod_pow(17, 12271734070142, 13427688667394608761327070753331941386769nat) == 8454027036050594188652421468115371162149nat);
    lemma_fundamental_div_mod_converse(8454027036050594188652421468115371162149int * 8454027036050594188652421468115371162149int, m, 5322626618520037472099514804023938298621int, 6108971965310412029283062589465669952652int);
    assert(mod_pow(17, 24543468140284, 13427688667394608761327070753331941386769nat) == 6108971965310412029283062589465669952652nat);
    lemma_fundamental_div_mod_converse(6108971965310412029283062589465669952652int * 6108971965310412029283062589465669952652int, m, 2779297271284568348153899091154621678187int, 269021881253494493113950786973104125301int);
    lemma_fundamental_div_mod_converse(269021881253494493113950786973104125301int * 17, m, 0int, 4573371981309406382937163378542770130117int);
    assert(mod_pow(17, 49086936280569, 13427688667394608761327070753331941386769nat) == 4573371981309406382937163378542770130117nat);
    lemma_fundamental_div_mod_converse(4573371981309406382937163378542770130117int * 4573371981309406382937163378542770130117int, m, 1557656853499585259969924011788118724937int, 5671858673661674338449424085021268275136int);
    lemma_fundamental_div_mod_converse(5671858673661674338449424085021268275136int * 17, m, 7int, 2427776780486202424350714172037970969929int);
    assert(mod_pow(17, 98173872561139, 13427688667394608761327070753331941386769nat) == 2427776780486202424350714172037970969929nat);
    lemma_fundamental_div_mod_converse(2427776780486202424350714172037970969929int * 2427776780486202424350714172037970969929int, m, 438951203134469897679316897184487664334int, 4967283020765738183848411697547281468195int);
    assert(mod_pow(17, 196347745122278, 13427688667394608761327070753331941386769nat) == 4967283020765738183848411697547281468195nat);
    lemma_fundamental_div_mod_converse(4967283020765738183848411697547281468195int * 4967283020765738183848411697547281468195int, m, 1837538925690262133184529521364422713175int, 8219866822445633123483400054243769576450int);
    lemma_fundamental_div_mod_converse(8219866822445633123483400054243769576450int * 17, m, 10int, 5460849307629675485947093388824668931960int);
    assert(mod_pow(17, 392695490244557, 13427688667394608761327070753331941386769nat) == 5460849307629675485947093388824668931960nat);
    lemma_fundamental_div_mod_converse(5460849307629675485947093388824668931960int * 5460849307629675485947093388824668931960int, m, 2220849462577366106280537606915970983761int, 11902353778202070076349552663255590183391int);
    assert(mod_pow(17, 785390980489114, 13427688667394608761327070753331941386769nat) == 11902353778202070076349552663255590183391nat);
    lemma_fundamental_div_mod_converse(11902353778202070076349552663255590183391int * 11902353778202070076349552663255590183391int, m, 10550291190879146931511723821599326364435int, 11445469712850818712370563870068031098366int);
    assert(mod_pow(17, 1570781960978228, 13427688667394608761327070753331941386769nat) == 11445469712850818712370563870068031098366nat);
    lemma_fundamental_div_mod_converse(11445469712850818712370563870068031098366int * 11445469712850818712370563870068031098366int, m, 9755869397380305750265518188503256703164int, 3143681189399453256028758171831217832840int);
    lemma_fundamental_div_mod_converse(3143681189399453256028758171831217832840int * 17, m, 3int, 13159514217606879068507676661134878997973int);
    assert(mod_pow(17, 3141563921956457, 13427688667394608761327070753331941386769nat) == 13159514217606879068507676661134878997973nat);
    lemma_fundamental_div_mod_converse(13159514217606879068507676661134878997973int * 13159514217606879068507676661134878997973int, m, 12896695681059347087519590768443594012015int, 10881414127407650922535103002516990079194int);
    assert(mod_pow(17, 6283127843912914, 13427688667394608761327070753331941386769nat) == 10881414127407650922535103002516990079194nat);
    lemma_fundamental_div_mod_converse(10881414127407650922535103002516990079194int * 10881414127407650922535103002516990079194int, m, 8817986203363554238621206828994861532258int, 3264673209618284631847797094165643795234int);
    assert(mod_pow(17, 12566255687825828, 13427688667394608761327070753331941386769nat) == 3264673209618284631847797094165643795234nat);
    lemma_fundamental_div_mod_converse(3264673209618284631847797094165643795234int * 3264673209618284631847797094165643795234int, m, 793739818490098713058863531040301065582int, 8743391634751712623225630708965825030198int);
    assert(mod_pow(17, 25132511375651656, 13427688667394608761327070753331941386769nat) == 8743391634751712623225630708965825030198nat);
    lemma_fundamental_div_mod_converse(8743391634751712623225630708965825030198int * 8743391634751712623225630708965825030198int, m, 5693228311457366611789869340026682932954int, 3564786727474083454925002735152602233578int);
    lemma_fundamental_div_mod_converse(3564786727474083454925002735152602233578int * 17, m, 4int, 6890619697480983688416763484266472423750int);
    assert(mod_pow(17, 50265022751303313, 13427688667394608761327070753331941386769nat) == 6890619697480983688416763484266472423750nat);
    lemma_fundamental_div_mod_converse(6890619697480983688416763484266472423750int * 6890619697480983688416763484266472423750int, m, 3536024776222760840612567914641818632923int, 2535078203315634496000344667555184066713int);
    lemma_fundamental_div_mod_converse(2535078203315634496000344667555184066713int * 17, m, 3int, 2813263454181960148024647088442304973814int);
    assert(mod_pow(17, 100530045502606627, 13427688667394608761327070753331941386769nat) == 2813263454181960148024647088442304973814nat);
    lemma_fundamental_div_mod_converse(2813263454181960148024647088442304973814int * 2813263454181960148024647088442304973814int, m, 589412776738996635491334677231665443460int, 1955106039288170824977234563035464125856int);
    lemma_fundamental_div_mod_converse(1955106039288170824977234563035464125856int * 17, m, 2int, 6381425333109686501958846064939007366014int);
    assert(mod_pow(17, 201060091005213255, 13427688667394608761327070753331941386769nat) == 6381425333109686501958846064939007366014nat);
    lemma_fundamental_div_mod_converse(6381425333109686501958846064939007366014int * 6381425333109686501958846064939007366014int, m, 3032732608772610774399385627771024309451int, 4735912634033683820432336942774629194377int);
    assert(mod_pow(17, 402120182010426510, 13427688667394608761327070753331941386769nat) == 4735912634033683820432336942774629194377nat);
    lemma_fundamental_div_mod_converse(4735912634033683820432336942774629194377int * 4735912634033683820432336942774629194377int, m, 1670344690941644139328866324027927589116int, 6443095815329303613703624884880177611925int);
    assert(mod_pow(17, 804240364020853020, 13427688667394608761327070753331941386769nat) == 6443095815329303613703624884880177611925nat);
    lemma_fundamental_div_mod_converse(6443095815329303613703624884880177611925int * 6443095815329303613703624884880177611925int, m, 3091632872477739454089649299694677191433int, 8798157702692086408525617672931795855648int);
    assert(mod_pow(17, 1608480728041706040, 13427688667394608761327070753331941386769nat) == 8798157702692086408525617672931795855648nat);
    lemma_fundamental_div_mod_converse(8798157702692086408525617672931795855648int * 8798157702692086408525617672931795855648int, m, 5764773139952430917322306555887892022452int, 6799321654363434848907513129939489762316int);
    lemma_fundamental_div_mod_converse(6799321654363434848907513129939489762316int * 17, m, 8int, 8166958785021522340811157182315794865220int);
    assert(mod_pow(17, 3216961456083412081, 13427688667394608761327070753331941386769nat) == 8166958785021522340811157182315794865220nat);
    lemma_fundamental_div_mod_converse(8166958785021522340811157182315794865220int * 8166958785021522340811157182315794865220int, m, 4967289415802485439186751727827450360975int, 735484758034569906810632436766826708625int);
    assert(mod_pow(17, 6433922912166824162, 13427688667394608761327070753331941386769nat) == 735484758034569906810632436766826708625nat);
    lemma_fundamental_div_mod_converse(735484758034569906810632436766826708625int * 735484758034569906810632436766826708625int, m, 40285252562839520106742572574619537893int, 4518859774316750725229742490886285052908int);
    assert(mod_pow(17, 12867845824333648324nat, 13427688667394608761327070753331941386769nat) == 4518859774316750725229742490886285052908nat);
    lemma_fundamental_div_mod_converse(4518859774316750725229742490886285052908int * 4518859774316750725229742490886285052908int, m, 1520745242591342537334340336230134121814int, 3756033697010638414489356984331225377498int);
    assert(mod_pow(17, 25735691648667296648nat, 13427688667394608761327070753331941386769nat) == 3756033697010638414489356984331225377498nat);
    lemma_fundamental_div_mod_converse(3756033697010638414489356984331225377498int * 3756033697010638414489356984331225377498int, m, 1050649108907047386799102072811915908870int, 12921842416885916157115685554571776998974int);
    lemma_fundamental_div_mod_converse(12921842416885916157115685554571776998974int * 17, m, 16int, 4828302408746834489733522374409146794254int);
    assert(mod_pow(17, 51471383297334593297nat, 13427688667394608761327070753331941386769nat) == 4828302408746834489733522374409146794254nat);
    lemma_fundamental_div_mod_converse(4828302408746834489733522374409146794254int * 4828302408746834489733522374409146794254int, m, 1736151673438660263029305585611447445932int, 7589940827895895462920832440293779742808int);
    assert(mod_pow(17, 102942766594669186594nat, 13427688667394608761327070753331941386769nat) == 7589940827895895462920832440293779742808nat);
    lemma_fundamental_div_mod_converse(7589940827895895462920832440293779742808int * 7589940827895895462920832440293779742808int, m, 4290180030078000646256508511329039693577int, 2189519978024794278500883696338425642151int);
    lemma_fundamental_div_mod_converse(2189519978024794278500883696338425642151int * 17, m, 2int, 10366462291632285211860881331089353143029int);
    assert(mod_pow(17, 205885533189338373189nat, 13427688667394608761327070753331941386769nat) == 10366462291632285211860881331089353143029nat);
    lemma_fundamental_div_mod_converse(10366462291632285211860881331089353143029int * 10366462291632285211860881331089353143029int, m, 8003130181650642600909870669221434077848int, 11298376823728669614254874483381108101729int);
    lemma_fundamental_div_mod_converse(11298376823728669614254874483381108101729int * 17, m, 14int, 4084764659862860783753875670831658314627int);
    assert(mod_pow(17, 411771066378676746379nat, 13427688667394608761327070753331941386769nat) == 4084764659862860783753875670831658314627nat);
    lemma_fundamental_div_mod_converse(4084764659862860783753875670831658314627int * 4084764659862860783753875670831658314627int, m, 1242604199409251186209795154986538934082int, 12139854767014645720990279415431964188071int);
    assert(mod_pow(17, 823542132757353492758nat, 13427688667394608761327070753331941386769nat) == 12139854767014645720990279415431964188071nat);
    lemma_fundamental_div_mod_converse(12139854767014645720990279415431964188071int * 12139854767014645720990279415431964188071int, m, 10975535508361155814151594823987980844625int, 237347101279385860745195527807838934416int);
    assert(mod_pow(17, 1647084265514706985516nat, 13427688667394608761327070753331941386769nat) == 237347101279385860745195527807838934416nat);
    lemma_fundamental_div_mod_converse(237347101279385860745195527807838934416int * 237347101279385860745195527807838934416int, m, 4195334571802932427629570661889695255int, 4009288039096906597169738746322850179961int);
    assert(mod_pow(17, 3294168531029413971032nat, 13427688667394608761327070753331941386769nat) == 4009288039096906597169738746322850179961nat);
    lemma_fundamental_div_mod_converse(4009288039096906597169738746322850179961int * 4009288039096906597169738746322850179961int, m, 1197107780691824199587784581114579332567int, 4007056295040577847605832225493661355498int);
    assert(mod_pow(17, 6588337062058827942064nat, 13427688667394608761327070753331941386769nat) == 4007056295040577847605832225493661355498nat);
    lemma_fundamental_div_mod_converse(4007056295040577847605832225493661355498int * 4007056295040577847605832225493661355498int, m, 1195775427130139537681125969390488544410int, 3625405337948345586529326172259091916714int);
    assert(mod_pow(17, 13176674124117655884128nat, 13427688667394608761327070753331941386769nat) == 3625405337948345586529326172259091916714nat);
    lemma_fundamental_div_mod_converse(3625405337948345586529326172259091916714int * 3625405337948345586529326172259091916714int, m, 978840379010263425989874245150708533093int, 10717086451679978153361306015722163711279int);
    lemma_fundamental_div_mod_converse(10717086451679978153361306015722163711279int * 17, m, 13int, 7630517002429714709890282473961545063746int);
    assert(mod_pow(17, 26353348248235311768257nat, 13427688667394608761327070753331941386769nat) == 7630517002429714709890282473961545063746nat);
    lemma_fundamental_div_mod_converse(7630517002429714709890282473961545063746int * 7630517002429714709890282473961545063746int, m, 4336173645859960769415667834721865454725int, 13007200598219895837595290957247920018991int);
    lemma_fundamental_div_mod_converse(13007200598219895837595290957247920018991int * 17, m, 16int, 6279391491424489057886814219903578134543int);
    assert(mod_pow(17, 52706696496470623536515nat, 13427688667394608761327070753331941386769nat) == 6279391491424489057886814219903578134543nat);
    lemma_fundamental_div_mod_converse(6279391491424489057886814219903578134543int * 6279391491424489057886814219903578134543int, m, 2936526045492911198728025078293615896270int, 2084569213009307989716926980921155367219int);
    assert(mod_pow(17, 105413392992941247073030nat, 13427688667394608761327070753331941386769nat) == 2084569213009307989716926980921155367219nat);
    lemma_fundamental_div_mod_converse(2084569213009307989716926980921155367219int * 2084569213009307989716926980921155367219int, m, 323617035773096655828725713878361155634int, 4949056878270933628669264012199342387415int);
    assert(mod_pow(17, 210826785985882494146060nat, 13427688667394608761327070753331941386769nat) == 4949056878270933628669264012199342387415nat);
    lemma_fundamental_div_mod_converse(4949056878270933628669264012199342387415int * 4949056878270933628669264012199342387415int, m, 1824078930563503899387450025480820883208int, 12364459950291429496026119771753044907273int);
    lemma_fundamental_div_mod_converse(12364459950291429496026119771753044907273int * 17, m, 15int, 8780489144035170012537974819822642622106int);
    assert(mod_pow(17, 421653571971764988292121nat, 13427688667394608761327070753331941386769nat) == 8780489144035170012537974819822642622106nat);
    lemma_fundamental_div_mod_converse(8780489144035170012537974819822642622106int * 8780489144035170012537974819822642622106int, m, 5741642625042981276795369917855427744624int, 12203244238382484472522699457266575395380int);
    lemma_fundamental_div_mod_converse(12203244238382484472522699457266575395380int * 17, m, 15int, 6039822041583104612979829473552660919925int);
    assert(mod_pow(17, 843307143943529976584243nat, 13427688667394608761327070753331941386769nat) == 6039822041583104612979829473552660919925nat);
    lemma_fundamental_div_mod_converse(6039822041583104612979829473552660919925int * 6039822041583104612979829473552660919925int, m, 2716733400482635353515109533518099104356int, 7693448401418739883776987333639773339861int);
    assert(mod_pow(17, 1686614287887059953168486nat, 13427688667394608761327070753331941386769nat) == 7693448401418739883776987333639773339861nat);
    lemma_fundamental_div_mod_converse(7693448401418739883776987333639773339861int * 7693448401418739883776987333639773339861int, m, 4407992303918758395557956759170391839496int, 9779995320976449205343202167475505470897int);
    lemma_fundamental_div_mod_converse(9779995320976449205343202167475505470897int * 17, m, 12int, 5127656447864331354909587807100296364021int);
    assert(mod_pow(17, 3373228575774119906336973nat, 13427688667394608761327070753331941386769nat) == 5127656447864331354909587807100296364021nat);
    lemma_fundamental_div_mod_converse(5127656447864331354909587807100296364021int * 5127656447864331354909587807100296364021int, m, 1958107705547978642466731411068974137877int, 8038630070652671331085861111745353739028int);
    assert(mod_pow(17, 6746457151548239812673946nat, 13427688667394608761327070753331941386769nat) == 8038630070652671331085861111745353739028nat);
    lemma_fundamental_div_mod_converse(8038630070652671331085861111745353739028int * 8038630070652671331085861111745353739028int, m, 4812412248558603823027892343513048093611int, 11632324996271261986925711976592861551925int);
    lemma_fundamental_div_mod_converse(11632324996271261986925711976592861551925int * 17, m, 14int, 9761883593086931119158113055431466967959int);
    assert(mod_pow(17, 13492914303096479625347893nat, 13427688667394608761327070753331941386769nat) == 9761883593086931119158113055431466967959nat);
    lemma_fundamental_div_mod_converse(9761883593086931119158113055431466967959int * 9761883593086931119158113055431466967959int, m, 7096855880817044495467451326299344384906int, 3810044321217417301993003770521780916967int);
    assert(mod_pow(17, 26985828606192959250695786nat, 13427688667394608761327070753331941386769nat) == 3810044321217417301993003770521780916967nat);
    lemma_fundamental_div_mod_converse(3810044321217417301993003770521780916967int * 3810044321217417301993003770521780916967int, m, 1081082387983138481305980392997072781631int, 3675252567317523191403563055704898838850int);
    lemma_fundamental_div_mod_converse(3675252567317523191403563055704898838850int * 17, m, 4int, 8768538974819459208552288933655514713374int);
    assert(mod_pow(17, 53971657212385918501391573nat, 13427688667394608761327070753331941386769nat) == 8768538974819459208552288933655514713374nat);
    lemma_fundamental_div_mod_converse(8768538974819459208552288933655514713374int * 8768538974819459208552288933655514713374int, m, 5726024609106939254144339393755896512475int, 9251307595955715388952947836995166020601int);
    lemma_fundamental_div_mod_converse(9251307595955715388952947836995166020601int * 17, m, 11int, 9567653789906465237602334942266467095758int);
    assert(mod_pow(17, 107943314424771837002783147nat, 13427688667394608761327070753331941386769nat) == 9567653789906465237602334942266467095758nat);
    lemma_fundamental_div_mod_converse(9567653789906465237602334942266467095758int * 9567653789906465237602334942266467095758int, m, 6817256589050270871450289844189755479611int, 9386380646153765999021177025611096927705int);
    lemma_fundamental_div_mod_converse(9386380646153765999021177025611096927705int * 17, m, 11int, 11863895643273325608762231148737292516526int);
    assert(mod_pow(17, 215886628849543674005566295nat, 13427688667394608761327070753331941386769nat) == 11863895643273325608762231148737292516526nat);
    lemma_fundamental_div_mod_converse(11863895643273325608762231148737292516526int * 11863895643273325608762231148737292516526int, m, 10482222467389846552441840416278870284879int, 1447657333369564744544669738840631742725int);
    lemma_fundamental_div_mod_converse(1447657333369564744544669738840631742725int * 17, m, 1int, 11182485999887991895932314806958798239556int);
    assert(mod_pow(17, 431773257699087348011132591nat, 13427688667394608761327070753331941386769nat) == 11182485999887991895932314806958798239556nat);
    lemma_fundamental_div_mod_converse(11182485999887991895932314806958798239556int * 11182485999887991895932314806958798239556int, m, 9312696789085903085021974398365077033556int, 659977830608230552996091921593375656572int);
    lemma_fundamental_div_mod_converse(659977830608230552996091921593375656572int * 17, m, 0int, 11219623120339919400933562667087386161724int);
    assert(mod_pow(17, 863546515398174696022265183nat, 13427688667394608761327070753331941386769nat) == 11219623120339919400933562667087386161724nat);
    lemma_fundamental_div_mod_converse(11219623120339919400933562667087386161724int * 11219623120339919400933562667087386161724int, m, 9374654572393411950317131920055959301827int, 9814036972182280388535916614773667325213int);
    lemma_fundamental_div_mod_converse(9814036972182280388535916614773667325213int * 17, m, 12int, 5706364518363461469185733411169047887393int);
    assert(mod_pow(17, 1727093030796349392044530367nat, 13427688667394608761327070753331941386769nat) == 5706364518363461469185733411169047887393nat);
    lemma_fundamental_div_mod_converse(5706364518363461469185733411169047887393int * 5706364518363461469185733411169047887393int, m, 2425033587165796334214881246989707109173int, 927554882247287096187061521012707604412int);
    lemma_fundamental_div_mod_converse(927554882247287096187061521012707604412int * 17, m, 1int, 2340744330809271873852975103884087888235int);
    assert(mod_pow(17, 3454186061592698784089060735nat, 13427688667394608761327070753331941386769nat) == 2340744330809271873852975103884087888235nat);
    lemma_fundamental_div_mod_converse(2340744330809271873852975103884087888235int * 2340744330809271873852975103884087888235int, m, 408043719059421678681764507827555646807int, 608598368513022910483507950189504518642int);
    lemma_fundamental_div_mod_converse(608598368513022910483507950189504518642int * 17, m, 0int, 10346172264721389478219635153221576816914int);
    assert(mod_pow(17, 6908372123185397568178121471nat, 13427688667394608761327070753331941386769nat) == 10346172264721389478219635153221576816914nat);
    lemma_fundamental_div_mod_converse(10346172264721389478219635153221576816914int * 10346172264721389478219635153221576816914int, m, 7971832173262613112037891366914762652113int, 8378024033673489557279770627862748390499int);
    assert(mod_pow(17, 13816744246370795136356242942nat, 13427688667394608761327070753331941386769nat) == 8378024033673489557279770627862748390499nat);
    lemma_fundamental_div_mod_converse(8378024033673489557279770627862748390499int * 8378024033673489557279770627862748390499int, m, 5227354345744591328615031516745867802342int, 11727621519567120116909023068865127456003int);
    lemma_fundamental_div_mod_converse(11727621519567120116909023068865127456003int * 17, m, 14int, 11381924489116519328874401624059987337285int);
    assert(mod_pow(17, 27633488492741590272712485885nat, 13427688667394608761327070753331941386769nat) == 11381924489116519328874401624059987337285nat);
    lemma_fundamental_div_mod_converse(11381924489116519328874401624059987337285int * 11381924489116519328874401624059987337285int, m, 9647840986254169676412714783099379405325int, 8812946587833232703062978842685308026300int);
    assert(mod_pow(17, 55266976985483180545424971770nat, 13427688667394608761327070753331941386769nat) == 8812946587833232703062978842685308026300nat);
    lemma_fundamental_div_mod_converse(8812946587833232703062978842685308026300int * 8812946587833232703062978842685308026300int, m, 5784169523426360747035373235340268675625int, 6800243198000319268669700710187963884375int);
    lemma_fundamental_div_mod_converse(6800243198000319268669700710187963884375int * 17, m, 8int, 8182625026848557476768346046539854940223int);
    assert(mod_pow(17, 110533953970966361090849943541nat, 13427688667394608761327070753331941386769nat) == 8182625026848557476768346046539854940223nat);
    lemma_fundamental_div_mod_converse(8182625026848557476768346046539854940223int * 8182625026848557476768346046539854940223int, m, 4986364666957964760710284910283476864925int, 7120346626766399900569075024045908112404int);
    assert(mod_pow(17, 221067907941932722181699887082nat, 13427688667394608761327070753331941386769nat) == 7120346626766399900569075024045908112404nat);
    lemma_fundamental_div_mod_converse(7120346626766399900569075024045908112404int * 7120346626766399900569075024045908112404int, m, 3775730681663243046172655026622714800517int, 7549059817530702048187005436304120499643int);
    lemma_fundamental_div_mod_converse(7549059817530702048187005436304120499643int * 17, m, 9int, 7484818891470455967235455637182576013010int);
    assert(mod_pow(17, 442135815883865444363399774165nat, 13427688667394608761327070753331941386769nat) == 7484818891470455967235455637182576013010nat);
    lemma_fundamental_div_mod_converse(7484818891470455967235455637182576013010int * 7484818891470455967235455637182576013010int, m, 4172163596118224848800662903093021992244int, 1632089351896561029717256022139167040464int);
    lemma_fundamental_div_mod_converse(1632089351896561029717256022139167040464int * 17, m, 2int, 890141647452319982539210869701956914350int);
    assert(mod_pow(17, 884271631767730888726799548331nat, 13427688667394608761327070753331941386769nat) == 890141647452319982539210869701956914350nat);
    lemma_fundamental_div_mod_converse(890141647452319982539210869701956914350int * 890141647452319982539210869701956914350int, m, 59008826623537690165321442893113133007int, 10407096529842502586806992822823308938117int);
    lemma_fundamental_div_mod_converse(10407096529842502586806992822823308938117int * 17, m, 13int, 2360688331192630078466958194681013919992int);
    assert(mod_pow(17, 1768543263535461777453599096663nat, 13427688667394608761327070753331941386769nat) == 2360688331192630078466958194681013919992nat);
    lemma_fundamental_div_mod_converse(2360688331192630078466958194681013919992int * 2360688331192630078466958194681013919992int, m, 415026706015395847093171348257881576675int, 7211589875271545518651439048194473266989int);
    assert(mod_pow(17, 3537086527070923554907198193326nat, 13427688667394608761327070753331941386769nat) == 7211589875271545518651439048194473266989nat);
    lemma_fundamental_div_mod_converse(7211589875271545518651439048194473266989int * 7211589875271545518651439048194473266989int, m, 3873118435893111475462063417875275545960int, 7476398023602640019981608433418881722881int);
    assert(mod_pow(17, 7074173054141847109814396386652nat, 13427688667394608761327070753331941386769nat) == 7476398023602640019981608433418881722881nat);
    lemma_fundamental_div_mod_converse(7476398023602640019981608433418881722881int * 7476398023602640019981608433418881722881int, m, 4162781011080377916751951711544574318355int, 3039666007333391031318571202213288095166int);
    assert(mod_pow(17, 14148346108283694219628792773304nat, 13427688667394608761327070753331941386769nat) == 3039666007333391031318571202213288095166nat);
    lemma_fundamental_div_mod_converse(3039666007333391031318571202213288095166int * 3039666007333391031318571202213288095166int, m, 688098277000853642909981065047376433620int, 10484375201938431034232186682548397793776int);
    lemma_fundamental_div_mod_converse(10484375201938431034232186682548397793776int * 17, m, 13int, 3674425756823413684695253810007524466195int);
    assert(mod_pow(17, 28296692216567388439257585546609nat, 13427688667394608761327070753331941386769nat) == 3674425756823413684695253810007524466195nat);
    lemma_fundamental_div_mod_converse(3674425756823413684695253810007524466195int * 3674425756823413684695253810007524466195int, m, 1005489848390043949389706080772970451662int, 1735758395172586221704342829375136917947int);
    lemma_fundamental_div_mod_converse(1735758395172586221704342829375136917947int * 17, m, 2int, 2652515383144748246319686592713444831561int);
    assert(mod_pow(17, 56593384433134776878515171093219nat, 13427688667394608761327070753331941386769nat) == 2652515383144748246319686592713444831561nat);
    lemma_fundamental_div_mod_converse(2652515383144748246319686592713444831561int * 2652515383144748246319686592713444831561int, m, 523979817532119101098510867849218090651int, 1589055127554888548371808299088367700102int);
    assert(mod_pow(17, 113186768866269553757030342186438nat, 13427688667394608761327070753331941386769nat) == 1589055127554888548371808299088367700102nat);
    lemma_fundamental_div_mod_converse(1589055127554888548371808299088367700102int * 1589055127554888548371808299088367700102int, m, 188051440642943555123881778255754243252int, 3979068485116342562740721202191970477616int);
    assert(mod_pow(17, 226373537732539107514060684372876nat, 13427688667394608761327070753331941386769nat) == 3979068485116342562740721202191970477616nat);
    lemma_fundamental_div_mod_converse(3979068485116342562740721202191970477616int * 3979068485116342562740721202191970477616int, m, 1179129662701522805503571991730854330360int, 189451878236458835004745035287898036616int);
    lemma_fundamental_div_mod_converse(189451878236458835004745035287898036616int * 17, m, 0int, 3220681930019800195080665599894266622472int);
    assert(mod_pow(17, 452747075465078215028121368745753nat, 13427688667394608761327070753331941386769nat) == 3220681930019800195080665599894266622472nat);
    lemma_fundamental_div_mod_converse(3220681930019800195080665599894266622472int * 3220681930019800195080665599894266622472int, m, 772492746241837836266337557038372670616int, 5611742309951555449553118844173477911080int);
    assert(mod_pow(17, 905494150930156430056242737491506nat, 13427688667394608761327070753331941386769nat) == 5611742309951555449553118844173477911080nat);
    lemma_fundamental_div_mod_converse(5611742309951555449553118844173477911080int * 5611742309951555449553118844173477911080int, m, 2345277175644465105015176382244697876826int, 671925396232586611880856363627998651206int);
    assert(mod_pow(17, 1810988301860312860112485474983012nat, 13427688667394608761327070753331941386769nat) == 671925396232586611880856363627998651206nat);
    lemma_fundamental_div_mod_converse(671925396232586611880856363627998651206int * 671925396232586611880856363627998651206int, m, 33623339748606226318972577085906775050int, 1220139502038279840244993066605715940986int);
    assert(mod_pow(17, 3621976603720625720224970949966024nat, 13427688667394608761327070753331941386769nat) == 1220139502038279840244993066605715940986nat);
    lemma_fundamental_div_mod_converse(1220139502038279840244993066605715940986int * 1220139502038279840244993066605715940986int, m, 110870935520661253047714445892541075659int, 2667543545659835767658605482012024096425int);
    assert(mod_pow(17, 7243953207441251440449941899932048nat, 13427688667394608761327070753331941386769nat) == 2667543545659835767658605482012024096425nat);
}

#[verifier::rlimit(100)]
pub proof fn lemma_pow_p134276_41_digits_by_4562087()
    ensures
        mod_pow(17, 2943321481461140210900640595703664nat, 13427688667394608761327070753331941386769nat) == 4447233623349539365335128882050056364534nat,
{
    let m = 13427688667394608761327070753331941386769int;
    lemma_fundamental_div_mod_converse(1, m, 0, 1);
    assert(mod_pow(17, 0, 13427688667394608761327070753331941386769nat) == 1);
    lemma_fundamental_div_mod_converse(1int * 1int, m, 0int, 1int);
    lemma_fundamental_div_mod_converse(1int * 17, m, 0int, 17int);
    assert(mod_pow(17, 1, 13427688667394608761327070753331941386769nat) == 17);
    lemma_fundamental_div_mod_converse(17int * 17int, m, 0int, 289int);
    assert(mod_pow(17, 2, 13427688667394608761327070753331941386769nat) == 289);
    lemma_fundamental_div_mod_converse(289int * 289int, m, 0int, 83521int);
    assert(mod_pow(17, 4, 13427688667394608761327070753331941386769nat) == 83521);
    lemma_fundamental_div_mod_converse(83521int * 83521int, m, 0int, 6975757441int);
    lemma_fundamental_div_mod_converse(6975757441int * 17, m, 0int, 118587876497int);
    assert(mod_pow(17, 9, 13427688667394608761327070753331941386769nat) == 118587876497);
    lemma_fundamental_div_mod_converse(118587876497int * 118587876497int, m, 0int, 14063084452067724991009int);
    assert(mod_pow(17, 18, 13427688667394608761327070753331941386769nat) == 14063084452067724991009nat);
    lemma_fundamental_div_mod_converse(14063084452067724991009int * 14063084452067724991009int, m, 14728int, 7345612601187003320504003470336386504249int);
    assert(mod_pow(17, 36, 13427688667394608761327070753331941386769nat) == 7345612601187003320504003470336386504249nat);
    lemma_fundamental_div_mod_converse(7345612601187003320504003470336386504249int * 7345612601187003320504003470336386504249int, m, 4018414920338396267187456612503216013221int, 5006375611223139495300354986916316581052int);
    assert(mod_pow(17, 72, 13427688667394608761327070753331941386769nat) == 5006375611223139495300354986916316581052nat);
    lemma_fundamental_div_mod_converse(5006375611223139495300354986916316581052int * 5006375611223139495300354986916316581052int, m, 1866575654342529780401819591500974383322int, 9445589947569792983895022774177220360086int);
    lemma_fundamental_div_mod_converse(9445589947569792983895022774177220360086int * 17, m, 11int, 12870453767345784351617608874361390867003int);
    assert(mod_pow(17, 145, 13427688667394608761327070753331941386769nat) == 12870453767345784351617608874361390867003nat);
    lemma_fundamental_div_mod_converse(12870453767345784351617608874361390867003int * 12870453767345784351617608874361390867003int, m, 12336343527208565720630554227946576211537int, 6052823950771824649880007733041957248056int);
    assert(mod_pow(17, 290, 13427688667394608761327070753331941386769nat) == 6052823950771824649880007733041957248056nat);
    lemma_fundamental_div_mod_converse(6052823950771824649880007733041957248056int * 6052823950771824649880007733041957248056int, m, 2728442599953853442874440873033044077078int, 10151024751140733708943638919659670398154int);
    assert(mod_pow(17, 580, 13427688667394608761327070753331941386769nat) == 10151024751140733708943638919659670398154nat);
    lemma_fundamental_div_mod_converse(10151024751140733708943638919659670398154int * 10151024751140733708943638919659670398154int, m, 7673941960576109773385383477913685669315int, 9655998704013005203150197101273836314481int);
    assert(mod_pow(17, 1160, 13427688667394608761327070753331941386769nat) == 9655998704013005203150197101273836314481nat);
    lemma_fundamental_div_mod_converse(9655998704013005203150197101273836314481int * 9655998704013005203150197101273836314481int, m, 6943734940645744227219471523840188042005int, 6858720892873156620138723528666607067516int);
    lemma_fundamental_div_mod_converse(6858720892873156620138723528666607067516int * 17, m, 8int, 9176745839686792451741733960676789053620int);
    assert(mod_pow(17, 2321, 13427688667394608761327070753331941386769nat) == 9176745839686792451741733960676789053620nat);
    lemma_fundamental_div_mod_converse(9176745839686792451741733960676789053620int * 9176745839686792451741733960676789053620int, m, 6271568122568687922096998239524744116914int, 9578281658413157185096087599547806393534int);
    lemma_fundamental_div_mod_converse(9578281658413157185096087599547806393534int * 17, m, 12int, 1698524184288367010708640152329412048850int);
    assert(mod_pow(17, 4643, 13427688667394608761327070753331941386769nat) == 1698524184288367010708640152329412048850nat);
    lemma_fundamental_div_mod_converse(1698524184288367010708640152329412048850int * 1698524184288367010708640152329412048850int, m, 214853388105269473317677369254007883056int, 9570282391708660416538227446688168636436int);
    lemma_fundamental_div_mod_converse(9570282391708660416538227446688168636436int * 17, m, 12int, 1562536650311921945225017553715570178184int);
    assert(mod_pow(17, 9287, 13427688667394608761327070753331941386769nat) == 1562536650311921945225017553715570178184nat);
    lemma_fundamental_div_mod_converse(1562536650311921945225017553715570178184int * 1562536650311921945225017553715570178184int, m, 181827330380138518383429363688074145561int, 5920765533201535379473545752868404055447int);
    assert(mod_pow(17, 18574, 13427688667394608761327070753331941386769nat) == 5920765533201535379473545752868404055447nat);
    lemma_fundamental_div_mod_converse(5920765533201535379473545752868404055447int * 5920765533201535379473545752868404055447int, m, 2610684933757040793776515077454337835578int, 4086089039419069202007228154409023702327int);
    lemma_fundamental_div_mod_converse(4086089039419069202007228154409023702327int * 17, m, 5int, 2325070333151132627487524858293696005714int);
    assert(mod_pow(17, 37149, 13427688667394608761327070753331941386769nat) == 2325070333151132627487524858293696005714nat);
    lemma_fundamental_div_mod_converse(2325070333151132627487524858293696005714int * 2325070333151132627487524858293696005714int, m, 402597363403752680943485745417099201906int, 5694990994581341244397370372437152668082int);
    lemma_fundamental_div_mod_converse(5694990994581341244397370372437152668082int * 17, m, 7int, 2821026236120539825465801058108005650011int);
    assert(mod_pow(17, 74299, 13427688667394608761327070753331941386769nat) == 2821026236120539825465801058108005650011nat);
    lemma_fundamental_div_mod_converse(2821026236120539825465801058108005650011int * 2821026236120539825465801058108005650011int, m, 592670058265847259436639455619423365497int, 889409829899608868597612634103297390928int);
    lemma_fundamental_div_mod_converse(889409829899608868597612634103297390928int * 17, m, 1int, 1692278440898742004832344026424114259007int);
    assert(mod_pow(17, 148599, 13427688667394608761327070753331941386769nat) == 1692278440898742004832344026424114259007nat);
    lemma_fundamental_div_mod_converse(1692278440898742004832344026424114259007int * 1692278440898742004832344026424114259007int, m, 213276193131036077380930025856547012777int, 11461884847769728884011935497014938878536int);
    lemma_fundamental_div_mod_converse(11461884847769728884011935497014938878536int * 17, m, 14int, 6864401068560868369623912902606781520346int);
    assert(mod_pow(17, 297199, 13427688667394608761327070753331941386769nat) == 6864401068560868369623912902606781520346nat);
    lemma_fundamental_div_mod_converse(6864401068560868369623912902606781520346int * 6864401068560868369623912902606781520346int, m, 3509167005374302029156631677290725660474int, 11485461469436469319782144175330202091210int);
    lemma_fundamental_div_mod_converse(11485461469436469319782144175330202091210int * 17, m, 14int, 7265203636895455777717460433966256135804int);
    assert(mod_pow(17, 594399, 13427688667394608761327070753331941386769nat) == 7265203636895455777717460433966256135804nat);
    lemma_fundamental_div_mod_converse(7265203636895455777717460433966256135804int * 7265203636895455777717460433966256135804int, m, 3930921038832854089071775539199825392703int, 11734790020170660413366529427384257379809int);
    assert(mod_pow(17, 1188798, 13427688667394608761327070753331941386769nat) == 11734790020170660413366529427384257379809nat);
    lemma_fundamental_div_mod_converse(11734790020170660413366529427384257379809int * 11734790020170660413366529427384257379809int, m, 10255323922714694555782259956197759579998int, 9593362370778003175430902934286966630019int);
    assert(mod_pow(17, 2377596, 13427688667394608761327070753331941386769nat) == 9593362370778003175430902934286966630019nat);
    lemma_fundamental_div_mod_converse(9593362370778003175430902934286966630019int * 9593362370778003175430902934286966630019int, m, 6853942168061642328015242770442033343981int, 153080425422031604205239214270092752972int);
    assert(mod_pow(17, 4755192, 13427688667394608761327070753331941386769nat) == 153080425422031604205239214270092752972nat);
    lemma_fundamental_div_mod_converse(153080425422031604205239214270092752972int * 153080425422031604205239214270092752972int, m, 1745171282105473020088384998046655984int, 5276820502985546666068964928501782557088int);
    assert(mod_pow(17, 9510384, 13427688667394608761327070753331941386769nat) == 5276820502985546666068964928501782557088nat);
    lemma_fundamental_div_mod_converse(5276820502985546666068964928501782557088int * 5276820502985546666068964928501782557088int, m, 2073687833434955997108794225688202666982int, 3570097617980788661432819798642611078586int);
    lemma_fundamental_div_mod_converse(3570097617980788661432819798642611078586int * 17, m, 4int, 6980904836094972199049653563596622788886int);
    assert(mod_pow(17, 19020769, 13427688667394608761327070753331941386769nat) == 6980904836094972199049653563596622788886nat);
    lemma_fundamental_div_mod_converse(6980904836094972199049653563596622788886int * 6980904836094972199049653563596622788886int, m, 3629294179939450586193288630761075293542int, 10631351069242250868341651884153295175198int);
    assert(mod_pow(17, 38041538, 13427688667394608761327070753331941386769nat) == 10631351069242250868341651884153295175198nat);
    lemma_fundamental_div_mod_converse(10631351069242250868341651884153295175198int * 10631351069242250868341651884153295175198int, m, 8417355239396450380376615647610913298211int, 10394579056890137979056051973202527568945int);
    lemma_fundamental_div_mod_converse(10394579056890137979056051973202527568945int * 17, m, 13int, 2147891291002431746700963751127730644068int);
    assert(mod_pow(17, 76083077, 13427688667394608761327070753331941386769nat) == 2147891291002431746700963751127730644068nat);
    lemma_fundamental_div_mod_converse(2147891291002431746700963751127730644068int * 2147891291002431746700963751127730644068int, m, 343576404863074911548931565575577648935int, 6558920186747931979841871049301567647609int);
    assert(mod_pow(17, 152166154, 13427688667394608761327070753331941386769nat) == 6558920186747931979841871049301567647609nat);
    lemma_fundamental_div_mod_converse(6558920186747931979841871049301567647609int * 6558920186747931979841871049301567647609int, m, 3203785482500067641494713623845046504991int, 16692313975211046978598705416783552802int);
    assert(mod_pow(17, 304332308, 13427688667394608761327070753331941386769nat) == 16692313975211046978598705416783552802nat);
    lemma_fundamental_div_mod_converse(16692313975211046978598705416783552802int * 16692313975211046978598705416783552802int, m, 20750655808963554285841593235063238int, 4211059075681855603245187192040390553182int);
    assert(mod_pow(17, 608664616, 13427688667394608761327070753331941386769nat) == 4211059075681855603245187192040390553182nat);
    lemma_fundamental_div_mod_converse(4211059075681855603245187192040390553182int * 4211059075681855603245187192040390553182int, m, 1320630748755905126266687763883735048947int, 3166780225133878479196094152510697142881int);
    assert(mod_pow(17, 1217329232, 13427688667394608761327070753331941386769nat) == 3166780225133878479196094152510697142881nat);
    lemma_fundamental_div_mod_converse(3166780225133878479196094152510697142881int * 3166780225133878479196094152510697142881int, m, 746852063873835696382893544070574792531int, 2629385829912399728339875888141925557822int);
    lemma_fundamental_div_mod_converse(2629385829912399728339875888141925557822int * 17, m, 3int, 4416493106326969097796677838416910322667int);
    assert(mod_pow(17, 2434658465, 13427688667394608761327070753331941386769nat) == 4416493106326969097796677838416910322667nat);
    lemma_fundamental_div_mod_converse(4416493106326969097796677838416910322667int * 4416493106326969097796677838416910322667int, m, 1452626125119886336190262734248351116967int, 4830026972044515613622978269645948783266int);
    lemma_fundamental_div_mod_converse(4830026972044515613622978269645948783266int * 17, m, 6int, 1544326520389112863628206063989480994908int);
    assert(mod_pow(17, 4869316931, 13427688667394608761327070753331941386769nat) == 1544326520389112863628206063989480994908nat);
    lemma_fundamental_div_mod_converse(1544326520389112863628206063989480994908int * 1544326520389112863628206063989480994908int, m, 177613918571728307475937399520084354481int, 814921391852566656480103804842202666575int);
    lemma_fundamental_div_mod_converse(814921391852566656480103804842202666575int * 17, m, 1int, 425974994099024398834693928985503945006int);
    assert(mod_pow(17, 9738633863, 13427688667394608761327070753331941386769nat) == 425974994099024398834693928985503945006nat);
    lemma_fundamental_div_mod_converse(425974994099024398834693928985503945006int * 425974994099024398834693928985503945006int, m, 13513472057054459031498506776756030012int, 1924142618511971823381692825022808628808int);
    lemma_fundamental_div_mod_converse(1924142618511971823381692825022808628808int * 17, m, 2int, 5855047179914303474834636518723863916198int);
    assert(mod_pow(17, 19477267727, 13427688667394608761327070753331941386769nat) == 5855047179914303474834636518723863916198nat);
    lemma_fundamental_div_mod_converse(5855047179914303474834636518723863916198int * 5855047179914303474834636518723863916198int, m, 2553051260584084974186810330661868744051int, 6085302005790366727063013369159907913985int);
    lemma_fundamental_div_mod_converse(6085302005790366727063013369159907913985int * 17, m, 7int, 9456313426673973030781732002394844830362int);
    assert(mod_pow(17, 38954535455, 13427688667394608761327070753331941386769nat) == 9456313426673973030781732002394844830362nat);
    lemma_fundamental_div_mod_converse(9456313426673973030781732002394844830362int * 9456313426673973030781732002394844830362int, m, 6659512730633267954533488470494208166927int, 6611248498362159222691945768282735862181int);
    lemma_fundamental_div_mod_converse(6611248498362159222691945768282735862181int * 17, m, 8int, 4969715132999836695146512034150978562925int);
    assert(mod_pow(17, 77909070911, 13427688667394608761327070753331941386769nat) == 4969715132999836695146512034150978562925nat);
    lemma_fundamental_div_mod_converse(4969715132999836695146512034150978562925int * 4969715132999836695146512034150978562925int, m, 1839338780853621152387354883050813758740int, 8557795938009205048388941572797190444565int);
    assert(mod_pow(17, 155818141822, 13427688667394608761327070753331941386769nat) == 8557795938009205048388941572797190444565nat);
    lemma_fundamental_div_mod_converse(8557795938009205048388941572797190444565int * 8557795938009205048388941572797190444565int, m, 5454093636713495344349472098183124624862int, 13155896879459446888057142889497162788347int);
    assert(mod_pow(17, 311636283644, 13427688667394608761327070753331941386769nat) == 13155896879459446888057142889497162788347nat);
    lemma_fundamental_div_mod_converse(13155896879459446888057142889497162788347int * 13155896879459446888057142889497162788347int, m, 12889606468404459973620199037289256037664int, 3841964630474134477901834364469663724793int);
    lemma_fundamental_div_mod_converse(3841964630474134477901834364469663724793int * 17, m, 4int, 11602644048481851079022901182656517774405int);
    assert(mod_pow(17, 623272567289, 13427688667394608761327070753331941386769nat) == 11602644048481851079022901182656517774405nat);
    lemma_fundamental_div_mod_converse(11602644048481851079022901182656517774405int * 11602644048481851079022901182656517774405int, m, 10025653129913688134309269665030233995052int, 5569738195477304855207390743566508837037int);
    lemma_fundamental_div_mod_converse(5569738195477304855207390743566508837037int * 17, m, 7int, 691728651351921209236147367307060522246int);
    assert(mod_pow(17, 1246545134579, 13427688667394608761327070753331941386769nat) == 691728651351921209236147367307060522246nat);
    lemma_fundamental_div_mod_converse(691728651351921209236147367307060522246int * 691728651351921209236147367307060522246int, m, 35634466880590067745124186356757964803int, 11226145432688415071112081615392348993009int);
    assert(mod_pow(17, 2493090269158, 13427688667394608761327070753331941386769nat) == 11226145432688415071112081615392348993009nat);
    lemma_fundamental_div_mod_converse(11226145432688415071112081615392348993009int * 11226145432688415071112081615392348993009int, m, 9385557291173329741247973075627743260867int, 862637330814204748390255312090221605358int);
    lemma_fundamental_div_mod_converse(862637330814204748390255312090221605358int * 17, m, 1int, 1237145956446871961307269552201825904317int);
    assert(mod_pow(17, 4986180538317, 13427688667394608761327070753331941386769nat) == 1237145956446871961307269552201825904317nat);
    lemma_fundamental_div_mod_converse(1237145956446871961307269552201825904317int * 1237145956446871961307269552201825904317int, m, 113983140022400913331023901486049765342int, 8131654683803195699847166080004325676491int);
    lemma_fundamental_div_mod_converse(8131654683803195699847166080004325676491int * 17, m, 10int, 3961242950708239284131115826754122632657int);
    assert(mod_pow(17, 9972361076635, 13427688667394608761327070753331941386769nat) == 3961242950708239284131115826754122632657nat);
    lemma_fundamental_div_mod_converse(3961242950708239284131115826754122632657int * 3961242950708239284131115826754122632657int, m, 1168588735054455883119549726661568199669int, 3335839620832594098445182758126016100188int);
    lemma_fundamental_div_mod_converse(3335839620832594098445182758126016100188int * 17, m, 4int, 2998518884575664628259823874814508156120int);
    assert(mod_pow(17, 19944722153271, 13427688667394608761327070753331941386769nat) == 2998518884575664628259823874814508156120nat);
    lemma_fundamental_div_mod_converse(2998518884575664628259823874814508156120int * 2998518884575664628259823874814508156120int, m, 669595171877145209978542195053428444947int, 13143156888043562092363288991383942748157int);
    assert(mod_pow(17, 39889444306542, 13427688667394608761327070753331941386769nat) == 13143156888043562092363288991383942748157nat);
    lemma_fundamental_div_mod_converse(13143156888043562092363288991383942748157int * 13143156888043562092363288991383942748157int, m, 12864654317104031353665658412107609338897int, 13164293870429232188534989584584054042856int);
    lemma_fundamental_div_mod_converse(13164293870429232188534989584584054042856int * 17, m, 16int, 8949977118983207023861690884617856540248int);
    assert(mod_pow(17, 79778888613085, 13427688667394608761327070753331941386769nat) == 8949977118983207023861690884617856540248nat);
    lemma_fundamental_div_mod_converse(8949977118983207023861690884617856540248int * 8949977118983207023861690884617856540248int, m, 5965441440776661641293523753549318394344int, 13234973165518529102062148105960677866968int);
    lemma_fundamental_div_mod_converse(13234973165518529102062148105960677866968int * 17, m, 16int, 10151525135501254553823385748020461550152int);
    assert(mod_pow(17, 159557777226171, 13427688667394608761327070753331941386769nat) == 10151525135501254553823385748020461550152nat);
    lemma_fundamental_div_mod_converse(10151525135501254553823385748020461550152int * 10151525135501254553823385748020461550152int, m, 7674698537429625776278068027006204141003int, 8311261137613990069578211236376576633797int);
    assert(mod_pow(17, 319115554452342, 13427688667394608761327070753331941386769nat) == 8311261137613990069578211236376576633797nat);
    lemma_fundamental_div_mod_converse(8311261137613990069578211236376576633797int * 8311261137613990069578211236376576633797int, m, 5144374687904921846633332615604256008986int, 12298088815798250387234912326565677130975int);
    assert(mod_pow(17, 638231108904684, 13427688667394608761327070753331941386769nat) == 12298088815798250387234912326565677130975nat);
    lemma_fundamental_div_mod_converse(12298088815798250387234912326565677130975int * 12298088815798250387234912326565677130975int, m, 11263516176727671993811610869204063493935int, 8108672489817991961156717726395983704610int);
    assert(mod_pow(17, 1276462217809368, 13427688667394608761327070753331941386769nat) == 8108672489817991961156717726395983704610nat);
    lemma_fundamental_div_mod_converse(8108672489817991961156717726395983704610int * 8108672489817991961156717726395983704610int, m, 4896640901928863253112000297214641364263int, 2953127458532992705458005493209437615853int);
    lemma_fundamental_div_mod_converse(2953127458532992705458005493209437615853int * 17, m, 3int, 9920100792877049708804881124564615309194int);
    assert(mod_pow(17, 2552924435618737, 13427688667394608761327070753331941386769nat) == 9920100792877049708804881124564615309194nat);
    lemma_fundamental_div_mod_converse(9920100792877049708804881124564615309194int * 9920100792877049708804881124564615309194int, m, 7328766862147852826227543790956174611674int, 11470570625723859537773143863858604388330int);
    assert(mod_pow(17, 5105848871237474, 13427688667394608761327070753331941386769nat) == 11470570625723859537773143863858604388330nat);
    lemma_fundamental_div_mod_converse(11470570625723859537773143863858604388330int * 11470570625723859537773143863858604388330int, m, 9798707263686395894213617078718940538376int, 12187791819349858103246655816552537041756int);
    lemma_fundamental_div_mod_converse(12187791819349858103246655816552537041756int * 17, m, 15int, 5777130918028456335287087581414008908317int);
    assert(mod_pow(17, 10211697742474949, 13427688667394608761327070753331941386769nat) == 5777130918028456335287087581414008908317nat);
    lemma_fundamental_div_mod_converse(5777130918028456335287087581414008908317int * 5777130918028456335287087581414008908317int, m, 2485553729368388355890295600949024106995int, 1993718185061025670393486731701978423334int);
    assert(mod_pow(17, 20423395484949898, 13427688667394608761327070753331941386769nat) == 1993718185061025670393486731701978423334nat);
    lemma_fundamental_div_mod_converse(1993718185061025670393486731701978423334int * 1993718185061025670393486731701978423334int, m, 296023559966429232992609333899464487994int, 7774739697700977071834625081291604724170int);
    assert(mod_pow(17, 40846790969899796, 13427688667394608761327070753331941386769nat) == 7774739697700977071834625081291604724170nat);
    lemma_fundamental_div_mod_converse(7774739697700977071834625081291604724170int * 7774739697700977071834625081291604724170int, m, 4501636794259693348036362101235136830588int, 117099098606192657494450639413644498728int);
    assert(mod_pow(17, 81693581939799592, 13427688667394608761327070753331941386769nat) == 117099098606192657494450639413644498728nat);
    lemma_fundamental_div_mod_converse(117099098606192657494450639413644498728int * 117099098606192657494450639413644498728int, m, 1021188324665217777590430455893605736int, 8138083348419307484098730126810820711000int);
    assert(mod_pow(17, 163387163879599184, 13427688667394608761327070753331941386769nat) == 8138083348419307484098730126810820711000nat);
    lemma_fundamental_div_mod_converse(8138083348419307484098730126810820711000int * 8138083348419307484098730126810820711000int, m, 4932226403687537020588809859082308959498int, 12092503896227294691610929662265946918038int);
    lemma_fundamental_div_mod_converse(12092503896227294691610929662265946918038int * 17, m, 15int, 4157236224944878337479742958541976805111int);
    assert(mod_pow(17, 326774327759198369, 13427688667394608761327070753331941386769nat) == 4157236224944878337479742958541976805111nat);
    lemma_fundamental_div_mod_converse(4157236224944878337479742958541976805111int * 4157236224944878337479742958541976805111int, m, 1287087707950806258772070277892816400525int, 130865895900044346090149495951436068596int);
    lemma_fundamental_div_mod_converse(130865895900044346090149495951436068596int * 17, m, 0int, 2224720230300753883532541431174413166132int);
    assert(mod_pow(17, 653548655518396739, 13427688667394608761327070753331941386769nat) == 2224720230300753883532541431174413166132nat);
    lemma_fundamental_div_mod_converse(2224720230300753883532541431174413166132int * 2224720230300753883532541431174413166132int, m, 368595089274569382326623434414314827106int, 8731216651967333621406568471664520880910int);
    lemma_fundamental_div_mod_converse(8731216651967333621406568471664520880910int * 17, m, 11int, 726107742103975189313885731645499721011int);
    assert(mod_pow(17, 1307097311036793479, 13427688667394608761327070753331941386769nat) == 726107742103975189313885731645499721011nat);
    lemma_fundamental_div_mod_converse(726107742103975189313885731645499721011int * 726107742103975189313885731645499721011int, m, 39264572347701930794706831307105065041int, 2633924589996553251385431821785353019592int);
    assert(mod_pow(17, 2614194622073586958, 13427688667394608761327070753331941386769nat) == 2633924589996553251385431821785353019592nat);
    lemma_fundamental_div_mod_converse(2633924589996553251385431821785353019592int * 2633924589996553251385431821785353019592int, m, 516660679111099345652311486880876234970int, 10296304448433588232136599294475042734534int);
    lemma_fundamental_div_mod_converse(10296304448433588232136599294475042734534int * 17, m, 13int, 477222947241086049070268212760488459081int);
    assert(mod_pow(17, 5228389244147173917, 13427688667394608761327070753331941386769nat) == 477222947241086049070268212760488459081nat);
    lemma_fundamental_div_mod_converse(477222947241086049070268212760488459081int * 477222947241086049070268212760488459081int, m, 16960606327317939955015154893530947212int, 1284610805463664991654672938824397126533int);
    assert(mod_pow(17, 10456778488294347834nat, 13427688667394608761327070753331941386769nat) == 1284610805463664991654672938824397126533nat);
    lemma_fundamental_div_mod_converse(1284610805463664991654672938824397126533int * 1284610805463664991654672938824397126533int, m, 122897168856849981507054490990920187675int, 601538247476559981125316784629970728014int);
    assert(mod_pow(17, 20913556976588695668nat, 13427688667394608761327070753331941386769nat) == 601538247476559981125316784629970728014nat);
    lemma_fundamental_div_mod_converse(601538247476559981125316784629970728014int * 601538247476559981125316784629970728014int, m, 26947918747611311121168420237809017680int, 8048847623726996594434288971616325308276int);
    assert(mod_pow(17, 41827113953177391336nat, 13427688667394608761327070753331941386769nat) == 8048847623726996594434288971616325308276nat);
    lemma_fundamental_div_mod_converse(8048847623726996594434288971616325308276int * 8048847623726996594434288971616325308276int, m, 4824653719242496428937291593611323455646int, 8668890182162534039772523526955931344402int);
    assert(mod_pow(17, 83654227906354782672nat, 13427688667394608761327070753331941386769nat) == 8668890182162534039772523526955931344402nat);
    lemma_fundamental_div_mod_converse(8668890182162534039772523526955931344402int * 8668890182162534039772523526955931344402int, m, 5596618960407826808283708904334363053234int, 7112836097585480686426046161404206476658int);
    assert(mod_pow(17, 167308455812709565344nat, 13427688667394608761327070753331941386769nat) == 7112836097585480686426046161404206476658nat);
    lemma_fundamental_div_mod_converse(7112836097585480686426046161404206476658int * 7112836097585480686426046161404206476658int, m, 3767769614286980908439487061350568976230int, 10248880033519517274611246421299501348094int);
    lemma_fundamental_div_mod_converse(10248880033519517274611246421299501348094int * 17, m, 12int, 13098696561096488532466340122108226276370int);
    assert(mod_pow(17, 334616911625419130689nat, 13427688667394608761327070753331941386769nat) == 13098696561096488532466340122108226276370nat);
    lemma_fundamental_div_mod_converse(13098696561096488532466340122108226276370int * 13098696561096488532466340122108226276370int, m, 12777765097898419771277000375664016035490int, 3189730989521745189459495174511499945090int);
    assert(mod_pow(17, 669233823250838261378nat, 13427688667394608761327070753331941386769nat) == 3189730989521745189459495174511499945090nat);
    lemma_fundamental_div_mod_converse(3189730989521745189459495174511499945090int * 3189730989521745189459495174511499945090int, m, 757716688071642648543146515510327763339int, 10077400961687907121531295375603317246409int);
    lemma_fundamental_div_mod_converse(10077400961687907121531295375603317246409int * 17, m, 12int, 10183552339959115930107172345273096547725int);
    assert(mod_pow(17, 1338467646501676522757nat, 13427688667394608761327070753331941386769nat) == 10183552339959115930107172345273096547725nat);
    lemma_fundamental_div_mod_converse(10183552339959115930107172345273096547725int * 10183552339959115930107172345273096547725int, m, 7723200978922364725465781434201983499842int, 6170949036563866562608603815303630285127int);
    lemma_fundamental_div_mod_converse(6170949036563866562608603815303630285127int * 17, m, 7int, 10912312949823470235056769586838125139776int);
    assert(mod_pow(17, 2676935293003353045515nat, 13427688667394608761327070753331941386769nat) == 10912312949823470235056769586838125139776nat);
    lemma_fundamental_div_mod_converse(10912312949823470235056769586838125139776int * 10912312949823470235056769586838125139776int, m, 8868136346058876204143403367889934042498int, 7784394967862634766120402979811236421214int);
    assert(mod_pow(17, 5353870586006706091030nat, 13427688667394608761327070753331941386769nat) == 7784394967862634766120402979811236421214nat);
    lemma_fundamental_div_mod_converse(7784394967862634766120402979811236421214int * 7784394967862634766120402979811236421214int, m, 4512824695051764591991587635657336687742int, 7010566802789317622641261371877825948198int);
    lemma_fundamental_div_mod_converse(7010566802789317622641261371877825948198int * 17, m, 8int, 11758126308261529494284877295267510025214int);
    assert(mod_pow(17, 10707741172013412182061nat, 13427688667394608761327070753331941386769nat) == 11758126308261529494284877295267510025214nat);
    lemma_fundamental_div_mod_converse(11758126308261529494284877295267510025214int * 11758126308261529494284877295267510025214int, m, 10296152800797503954747400245186322294650int, 5641934984619067893752035122891686259946int);
    lemma_fundamental_div_mod_converse(5641934984619067893752035122891686259946int * 17, m, 7int, 1919074066761892864495101815835076711699int);
    assert(mod_pow(17, 21415482344026824364123nat, 13427688667394608761327070753331941386769nat) == 1919074066761892864495101815835076711699nat);
    lemma_fundamental_div_mod_converse(1919074066761892864495101815835076711699int * 1919074066761892864495101815835076711699int, m, 274272465272507476840144903393279258974int, 2550248080377825872985543351700515351595int);
    assert(mod_pow(17, 42830964688053648728246nat, 13427688667394608761327070753331941386769nat) == 2550248080377825872985543351700515351595nat);
    lemma_fundamental_div_mod_converse(2550248080377825872985543351700515351595int * 2550248080377825872985543351700515351595int, m, 484354786037254729588910606347296368602int, 82489659642218376764839976680799217087int);
    assert(mod_pow(17, 85661929376107297456492nat, 13427688667394608761327070753331941386769nat) == 82489659642218376764839976680799217087nat);
    lemma_fundamental_div_mod_converse(82489659642218376764839976680799217087int * 82489659642218376764839976680799217087int, m, 506754670624138427926144751505219718int, 220535481708484062644132622937189654427int);
    lemma_fundamental_div_mod_converse(220535481708484062644132622937189654427int * 17, m, 0int, 3749103189044229064950254589932224125259int);
    assert(mod_pow(17, 171323858752214594912985nat, 13427688667394608761327070753331941386769nat) == 3749103189044229064950254589932224125259nat);
    lemma_fundamental_div_mod_converse(3749103189044229064950254589932224125259int * 3749103189044229064950254589932224125259int, m, 1046775440678195880446034914095751796392int, 9050689750469078917423186694924311079633int);
    assert(mod_pow(17, 342647717504429189825970nat, 13427688667394608761327070753331941386769nat) == 9050689750469078917423186694924311079633nat);
    lemma_fundamental_div_mod_converse(9050689750469078917423186694924311079633int * 9050689750469078917423186694924311079633int, m, 6100453100179012793501698678247885105867int, 11503594588141037976089253502449709340966int);
    lemma_fundamental_div_mod_converse(11503594588141037976089253502449709340966int * 17, m, 14int, 7573466654873122934938318994997879381656int);
    assert(mod_pow(17, 685295435008858379651941nat, 13427688667394608761327070753331941386769nat) == 7573466654873122934938318994997879381656nat);
    lemma_fundamental_div_mod_converse(7573466654873122934938318994997879381656int * 7573466654873122934938318994997879381656int, m, 4271576337017070425251761780630533874439int, 6967013675856138854659848389048727404745int);
    assert(mod_pow(17, 1370590870017716759303882nat, 13427688667394608761327070753331941386769nat) == 6967013675856138854659848389048727404745nat);
    lemma_fundamental_div_mod_converse(6967013675856138854659848389048727404745int * 6967013675856138854659848389048727404745int, m, 3614864833545817160226736542914374143150int, 3272470936297943304646245732255926532675int);
    lemma_fundamental_div_mod_converse(3272470936297943304646245732255926532675int * 17, m, 4int, 1921251247486601133677894435022985508399int);
    assert(mod_pow(17, 2741181740035433518607765nat, 13427688667394608761327070753331941386769nat) == 1921251247486601133677894435022985508399nat);
    lemma_fundamental_div_mod_converse(1921251247486601133677894435022985508399int * 1921251247486601133677894435022985508399int, m, 274895139990241557206260514279272869094int, 12907164102273830993590082224340738925915int);
    lemma_fundamental_div_mod_converse(12907164102273830993590082224340738925915int * 17, m, 16int, 4578771060341386709798265760481499552251int);
    assert(mod_pow(17, 5482363480070867037215531nat, 13427688667394608761327070753331941386769nat) == 4578771060341386709798265760481499552251nat);
    lemma_fundamental_div_mod_converse(4578771060341386709798265760481499552251int * 4578771060341386709798265760481499552251int, m, 1561336797592558421103732716312367995301int, 4057080593366547232209038538447063594532int);
    lemma_fundamental_div_mod_converse(4057080593366547232209038538447063594532int * 17, m, 5int, 1831926750258259140918301386940374173199int);
    assert(mod_pow(17, 10964726960141734074431063nat, 13427688667394608761327070753331941386769nat) == 1831926750258259140918301386940374173199nat);
    lemma_fundamental_div_mod_converse(1831926750258259140918301386940374173199int * 1831926750258259140918301386940374173199int, m, 249928018249394400538560422065209890177int, 3026774437033146279332682072295279025488int);
    lemma_fundamental_div_mod_converse(3026774437033146279332682072295279025488int * 17, m, 3int, 11172099427379660464674382969023919272989int);
    assert(mod_pow(17, 21929453920283468148862127nat, 13427688667394608761327070753331941386769nat) == 11172099427379660464674382969023919272989nat);
    lemma_fundamental_div_mod_converse(11172099427379660464674382969023919272989int * 11172099427379660464674382969023919272989int, m, 9295405092191127204317367634774977209543int, 10464020154538871076987540227248984257554int);
    lemma_fundamental_div_mod_converse(10464020154538871076987540227248984257554int * 17, m, 13int, 3328389951030894411536264069917494350421int);
    assert(mod_pow(17, 43858907840566936297724255nat, 13427688667394608761327070753331941386769nat) == 3328389951030894411536264069917494350421nat);
    lemma_fundamental_div_mod_converse(3328389951030894411536264069917494350421int * 3328389951030894411536264069917494350421int, m, 825025061314066999829609580153382235317int, 8008467806191777003434586534598674556468int);
    lemma_fundamental_div_mod_converse(8008467806191777003434586534598674556468int * 17, m, 10int, 1867066031314121445117263554858053592266int);
    assert(mod_pow(17, 87717815681133872595448511nat, 13427688667394608761327070753331941386769nat) == 1867066031314121445117263554858053592266nat);
    lemma_fundamental_div_mod_converse(1867066031314121445117263554858053592266int * 1867066031314121445117263554858053592266int, m, 259608012341817600505738023914738067465int, 4197106908671069190797922451859794644171int);
    lemma_fundamental_div_mod_converse(4197106908671069190797922451859794644171int * 17, m, 5int, 4212374110435132436929327914956802017062int);
    assert(mod_pow(17, 175435631362267745190897023nat, 13427688667394608761327070753331941386769nat) == 4212374110435132436929327914956802017062nat);
    lemma_fundamental_div_mod_converse(4212374110435132436929327914956802017062int * 4212374110435132436929327914956802017062int, m, 1321455693960998159708926149736150877725int, 2266754373804033078559494460658687291319int);
    assert(mod_pow(17, 350871262724535490381794046nat, 13427688667394608761327070753331941386769nat) == 2266754373804033078559494460658687291319nat);
    lemma_fundamental_div_mod_converse(2266754373804033078559494460658687291319int * 2266754373804033078559494460658687291319int, m, 382655237132235411414694402418158123136int, 9592788892614576142458737396675069572177int);
    lemma_fundamental_div_mod_converse(9592788892614576142458737396675069572177int * 17, m, 12int, 1945147165712489285873686703492886085781int);
    assert(mod_pow(17, 701742525449070980763588093nat, 13427688667394608761327070753331941386769nat) == 1945147165712489285873686703492886085781nat);
    lemma_fundamental_div_mod_converse(1945147165712489285873686703492886085781int * 1945147165712489285873686703492886085781int, m, 281775783606507046935158508328843120902int, 8249774277562560822298032202859480234323int);
    lemma_fundamental_div_mod_converse(8249774277562560822298032202859480234323int * 17, m, 10int, 5969276044617446365795839915291750115801int);
    assert(mod_pow(17, 1403485050898141961527176187nat, 13427688667394608761327070753331941386769nat) == 5969276044617446365795839915291750115801nat);
    lemma_fundamental_div_mod_converse(5969276044617446365795839915291750115801int * 5969276044617446365795839915291750115801int, m, 2653640353113539745375413972311667139441int, 2957723751653593465816495882524074415472int);
    assert(mod_pow(17, 2806970101796283923054352374nat, 13427688667394608761327070753331941386769nat) == 2957723751653593465816495882524074415472nat);
    lemma_fundamental_div_mod_converse(2957723751653593465816495882524074415472int * 2957723751653593465816495882524074415472int, m, 651499301762796858837897021480356177397int, 5487687208102993575301784802102520322491int);
    lemma_fundamental_div_mod_converse(5487687208102993575301784802102520322491int * 17, m, 6int, 12724550533383238212167917115751197161733int);
    assert(mod_pow(17, 5613940203592567846108704749nat, 13427688667394608761327070753331941386769nat) == 12724550533383238212167917115751197161733nat);
    lemma_fundamental_div_mod_converse(12724550533383238212167917115751197161733int * 12724550533383238212167917115751197161733int, m, 12058232082025183288923736421135004346364int, 9560274007047082404952060592806396705373int);
    assert(mod_pow(17, 11227880407185135692217409498nat, 13427688667394608761327070753331941386769nat) == 9560274007047082404952060592806396705373nat);
    lemma_fundamental_div_mod_converse(9560274007047082404952060592806396705373int * 9560274007047082404952060592806396705373int, m, 6806743986532591284744490812183557664955int, 5586385389575542963068754668186795088734int);
    lemma_fundamental_div_mod_converse(5586385389575542963068754668186795088734int * 17, m, 7int, 974730951021969042879334085851926801095int);
    assert(mod_pow(17, 22455760814370271384434818997nat, 13427688667394608761327070753331941386769nat) == 974730951021969042879334085851926801095nat);
    lemma_fundamental_div_mod_converse(974730951021969042879334085851926801095int * 974730951021969042879334085851926801095int, m, 70756810826813829317191596467802466825int, 11628801182518182152771258453110076760600int);
    lemma_fundamental_div_mod_converse(11628801182518182152771258453110076760600int * 17, m, 14int, 9701978759284573938532403156224125515434int);
    assert(mod_pow(17, 44911521628740542768869637995nat, 13427688667394608761327070753331941386769nat) == 9701978759284573938532403156224125515434nat);
    lemma_fundamental_div_mod_converse(9701978759284573938532403156224125515434int * 9701978759284573938532403156224125515434int, m, 7010021916442965189711938326887566250536int, 12821860262599952090352311722274642650172int);
    lemma_fundamental_div_mod_converse(12821860262599952090352311722274642650172int * 17, m, 16int, 3128605785885445354756167225357862864620int);
    assert(mod_pow(17, 89823043257481085537739275991nat, 13427688667394608761327070753331941386769nat) == 3128605785885445354756167225357862864620nat);
    lemma_fundamental_div_mod_converse(3128605785885445354756167225357862864620int * 3128605785885445354756167225357862864620int, m, 728954506313788166516088263017600714898int, 570662475933945800284012721664529359838int);
    lemma_fundamental_div_mod_converse(570662475933945800284012721664529359838int * 17, m, 0int, 9701262090877078604828216268296999117246int);
    assert(mod_pow(17, 179646086514962171075478551983nat, 13427688667394608761327070753331941386769nat) == 9701262090877078604828216268296999117246nat);
    lemma_fundamental_div_mod_converse(9701262090877078604828216268296999117246int * 9701262090877078604828216268296999117246int, m, 7008986318279738495332112846989742426130int, 2379429883097699056799807563196512750546int);
    lemma_fundamental_div_mod_converse(2379429883097699056799807563196512750546int * 17, m, 3int, 167242010477057681615516314344892598975int);
    assert(mod_pow(17, 359292173029924342150957103967nat, 13427688667394608761327070753331941386769nat) == 167242010477057681615516314344892598975nat);
    lemma_fundamental_div_mod_converse(167242010477057681615516314344892598975int * 167242010477057681615516314344892598975int, m, 2083001085386000696144596507004750016int, 8592968122780852268304268936948956112321int);
    lemma_fundamental_div_mod_converse(8592968122780852268304268936948956112321int * 17, m, 10int, 11803571413328400947901864394812840041767int);
    assert(mod_pow(17, 718584346059848684301914207935nat, 13427688667394608761327070753331941386769nat) == 11803571413328400947901864394812840041767nat);
    lemma_fundamental_div_mod_converse(11803571413328400947901864394812840041767int * 11803571413328400947901864394812840041767int, m, 10375895774814437412444560722761248963721int, 797968154107724622874146070765394074840int);
    assert(mod_pow(17, 1437168692119697368603828415870nat, 13427688667394608761327070753331941386769nat) == 797968154107724622874146070765394074840nat);
    lemma_fundamental_div_mod_converse(797968154107724622874146070765394074840int * 797968154107724622874146070765394074840int, m, 47420906958936766028162582831571639323int, 5537141997631473687245106468532208708213int);
    lemma_fundamental_div_mod_converse(5537141997631473687245106468532208708213int * 17, m, 7int, 137593287972791353877314691723958332238int);
    assert(mod_pow(17, 2874337384239394737207656831741nat, 13427688667394608761327070753331941386769nat) == 137593287972791353877314691723958332238nat);
    lemma_fundamental_div_mod_converse(137593287972791353877314691723958332238int * 137593287972791353877314691723958332238int, m, 1409915985104298116817934463270511979int, 2100854007884793098733062104332503482793int);
    lemma_fundamental_div_mod_converse(2100854007884793098733062104332503482793int * 17, m, 2int, 8859140799252265155807914266988676433943int);
    assert(mod_pow(17, 5748674768478789474415313663483nat, 13427688667394608761327070753331941386769nat) == 8859140799252265155807914266988676433943nat);
    lemma_fundamental_div_mod_converse(8859140799252265155807914266988676433943int * 8859140799252265155807914266988676433943int, m, 5844965402836114841194572469256050219605int, 9473422922785411650649112506056551121004int);
    lemma_fundamental_div_mod_converse(9473422922785411650649112506056551121004int * 17, m, 11int, 13343614346011301686437134316310013802609int);
    assert(mod_pow(17, 11497349536957578948830627326967nat, 13427688667394608761327070753331941386769nat) == 13343614346011301686437134316310013802609nat);
    lemma_fundamental_div_mod_converse(13343614346011301686437134316310013802609int * 13343614346011301686437134316310013802609int, m, 13260066436260789424737834547700987431744int, 4991121372114155398207186620348923011745int);
    assert(mod_pow(17, 22994699073915157897661254653934nat, 13427688667394608761327070753331941386769nat) == 4991121372114155398207186620348923011745nat);
    lemma_fundamental_div_mod_converse(4991121372114155398207186620348923011745int * 4991121372114155398207186620348923011745int, m, 1855218211281946452289588073408546048645int, 7204033347419886151590444156984774567020int);
    lemma_fundamental_div_mod_converse(7204033347419886151590444156984774567020int * 17, m, 9int, 1619368899586585725093913888753695158419int);
    assert(mod_pow(17, 45989398147830315795322509307869nat, 13427688667394608761327070753331941386769nat) == 1619368899586585725093913888753695158419nat);
    lemma_fundamental_div_mod_converse(1619368899586585725093913888753695158419int * 1619368899586585725093913888753695158419int, m, 195294640641760463654002763563629577012int, 7765054889916577872408881767853343225333int);
    lemma_fundamental_div_mod_converse(7765054889916577872408881767853343225333int * 17, m, 9int, 11156735122030344979007353273519362349740int);
    assert(mod_pow(17, 91978796295660631590645018615739nat, 13427688667394608761327070753331941386769nat) == 11156735122030344979007353273519362349740nat);
    lemma_fundamental_div_mod_converse(11156735122030344979007353273519362349740int * 11156735122030344979007353273519362349740int, m, 9269855867703630481299518087960257705818int, 12972244219626317693983641985608718545558int);
    lemma_fundamental_div_mod_converse(12972244219626317693983641985608718545558int * 17, m, 16int, 5685133055333660616488781702037153086182int);
    assert(mod_pow(17, 183957592591321263181290037231479nat, 13427688667394608761327070753331941386769nat) == 5685133055333660616488781702037153086182nat);
    lemma_fundamental_div_mod_converse(5685133055333660616488781702037153086182int * 5685133055333660616488781702037153086182int, m, 2407021689096004058983136641110475266901int, 1577862524753647592747772660053774304255int);
    assert(mod_pow(17, 367915185182642526362580074462958nat, 13427688667394608761327070753331941386769nat) == 1577862524753647592747772660053774304255nat);
    lemma_fundamental_div_mod_converse(1577862524753647592747772660053774304255int * 1577862524753647592747772660053774304255int, m, 185411667539431050609993449909275157177int, 3519183034079232815746935208175487913912int);
    assert(mod_pow(17, 735830370365285052725160148925916nat, 13427688667394608761327070753331941386769nat) == 3519183034079232815746935208175487913912nat);
    lemma_fundamental_div_mod_converse(3519183034079232815746935208175487913912int * 3519183034079232815746935208175487913912int, m, 922321743832486675344573749583764111683int, 7058897087128800847923932263157108621517int);
    assert(mod_pow(17, 1471660740730570105450320297851832nat, 13427688667394608761327070753331941386769nat) == 7058897087128800847923932263157108621517nat);
    lemma_fundamental_div_mod_converse(7058897087128800847923932263157108621517int * 7058897087128800847923932263157108621517int, m, 3710841777830976780124113800172949947395int, 4447233623349539365335128882050056364534int);
    assert(mod_pow(17, 2943321481461140210900640595703664nat, 13427688667394608761327070753331941386769nat) == 4447233623349539365335128882050056364534nat);
}

#[verifier::rlimit(100)]
pub proof fn lemma_pow_p134276_41_digits_by_173171039()
    ensures
        mod_pow(17, 77540036399473290457806115913712nat, 13427688667394608761327070753331941386769nat) == 10302702663714691208296195508137108065110nat,
{
    let m = 13427688667394608761327070753331941386769int;
    lemma_fundamental_div_mod_converse(1, m, 0, 1);
    assert(mod_pow(17, 0, 13427688667394608761327070753331941386769nat) == 1);
    lemma_fundamental_div_mod_converse(1int * 1int, m, 0int, 1int);
    lemma_fundamental_div_mod_converse(1int * 17, m, 0int, 17int);
    assert(mod_pow(17, 1, 13427688667394608761327070753331941386769nat) == 17);
    lemma_fundamental_div_mod_converse(17int * 17int, m, 0int, 289int);
    lemma_fundamental_div_mod_converse(289int * 17, m, 0int, 4913int);
    assert(mod_pow(17, 3, 13427688667394608761327070753331941386769nat) == 4913);
    lemma_fundamental_div_mod_converse(4913int * 4913int, m, 0int, 24137569int);
    lemma_fundamental_div_mod_converse(24137569int * 17, m, 0int, 410338673int);
    assert(mod_pow(17, 7, 13427688667394608761327070753331941386769nat) == 410338673);
    lemma_fundamental_div_mod_converse(410338673int * 410338673int, m, 0int, 168377826559400929int);
    lemma_fundamental_div_mod_converse(168377826559400929int * 17, m, 0int, 2862423051509815793int);
    assert(mod_pow(17, 15, 13427688667394608761327070753331941386769nat) == 2862423051509815793);
    lemma_fundamental_div_mod_converse(2862423051509815793int * 2862423051509815793int, m, 0int, 8193465725814765556554001028792218849int);
    assert(mod_pow(17, 30, 13427688667394608761327070753331941386769nat) == 8193465725814765556554001028792218849nat);
    lemma_fundamental_div_mod_converse(8193465725814765556554001028792218849int * 8193465725814765556554001028792218849int, m, 4999585726403884503922019319978623int, 7290808568665458723105099930782655845714int);
    lemma_fundamental_div_mod_converse(7290808568665458723105099930782655845714int * 17, m, 9int, 3094547660761319440843062043317676896217int);
    assert(mod_pow(17, 61, 13427688667394608761327070753331941386769nat) == 3094547660761319440843062043317676896217nat);
    lemma_fundamental_div_mod_converse(3094547660761319440843062043317676896217int * 3094547660761319440843062043317676896217int, m, 713170037072466705857805112490347839250int, 2532913365747145310120032914238900027839int);
    assert(mod_pow(17, 122, 13427688667394608761327070753331941386769nat) == 2532913365747145310120032914238900027839nat);
    lemma_fundamental_div_mod_converse(2532913365747145310120032914238900027839int * 2532913365747145310120032914238900027839int, m, 477792587935043963993488763473223416897int, 10393903704120422877010281549120168174128int);
    assert(mod_pow(17, 244, 13427688667394608761327070753331941386769nat) == 10393903704120422877010281549120168174128nat);
    lemma_fundamental_div_mod_converse(10393903704120422877010281549120168174128int * 10393903704120422877010281549120168174128int, m, 8045556974586160913920874236607848703652int, 2468196645091315845528503541273533779996int);
    lemma_fundamental_div_mod_converse(2468196645091315845528503541273533779996int * 17, m, 3int, 1676276964368543090003347941654250099625int);
    assert(mod_pow(17, 489, 13427688667394608761327070753331941386769nat) == 1676276964368543090003347941654250099625nat);
    lemma_fundamental_div_mod_converse(1676276964368543090003347941654250099625int * 1676276964368543090003347941654250099625int, m, 209261960928218866706395268257267838405int, 8340829933173680652437516001103728077180int);
    assert(mod_pow(17, 978, 13427688667394608761327070753331941386769nat) == 8340829933173680652437516001103728077180nat);
    lemma_fundamental_div_mod_converse(8340829933173680652437516001103728077180int * 8340829933173680652437516001103728077180int, m, 5181043863718409577037792392668852441254int, 863732454459810923533915751776171384074int);
    lemma_fundamental_div_mod_converse(863732454459810923533915751776171384074int * 17, m, 1int, 1255763058422176938749497026862972142489int);
    assert(mod_pow(17, 1957, 13427688667394608761327070753331941386769nat) == 1255763058422176938749497026862972142489nat);
    lemma_fundamental_div_mod_converse(1255763058422176938749497026862972142489int * 1255763058422176938749497026862972142489int, m, 117439486270409304926467415571731708784int, 1929970587835973114296751379483900436225int);
    assert(mod_pow(17, 3914, 13427688667394608761327070753331941386769nat) == 1929970587835973114296751379483900436225nat);
    lemma_fundamental_div_mod_converse(1929970587835973114296751379483900436225int * 1929970587835973114296751379483900436225int, m, 277395951170400243927653875286807243964int, 10311552167536990506600281664940227538309int);
    lemma_fundamental_div_mod_converse(10311552167536990506600281664940227538309int * 17, m, 13int, 736434171998924714952868510668630123256int);
    assert(mod_pow(17, 7829, 13427688667394608761327070753331941386769nat) == 736434171998924714952868510668630123256nat);
    lemma_fundamental_div_mod_converse(736434171998924714952868510668630123256int * 736434171998924714952868510668630123256int, m, 40389325603344646637250862168728951670int, 11576264044248080763552104251914373587306int);
    lemma_fundamental_div_mod_converse(11576264044248080763552104251914373587306int * 17, m, 14int, 8808847408692850321806781735897171569436int);
    assert(mod_pow(17, 15659, 13427688667394608761327070753331941386769nat) == 8808847408692850321806781735897171569436nat);
    lemma_fundamental_div_mod_converse(8808847408692850321806781735897171569436int * 8808847408692850321806781735897171569436int, m, 5778789975824689176412362091201931544285int, 12432359987971411604133120497886732792931int);
    assert(mod_pow(17, 31318, 13427688667394608761327070753331941386769nat) == 12432359987971411604133120497886732792931nat);
    lemma_fundamental_div_mod_converse(12432359987971411604133120497886732792931int * 12432359987971411604133120497886732792931int, m, 11510810140082185981692518899910584900147int, 5060406414827379419069696925505151615718int);
    assert(mod_pow(17, 62636, 13427688667394608761327070753331941386769nat) == 5060406414827379419069696925505151615718nat);
    lemma_fundamental_div_mod_converse(5060406414827379419069696925505151615718int * 5060406414827379419069696925505151615718int, m, 1907082724177785710891496157926466105941int, 9687088900686190536383454855975134960895int);
    assert(mod_pow(17, 125272, 13427688667394608761327070753331941386769nat) == 9687088900686190536383454855975134960895nat);
    lemma_fundamental_div_mod_converse(9687088900686190536383454855975134960895int * 9687088900686190536383454855975134960895int, m, 6988521531457686099775968224898969150795int, 5749932885923578599799688941250600369670int);
    lemma_fundamental_div_mod_converse(5749932885923578599799688941250600369670int * 17, m, 7int, 3755038388938574867305216727936616577007int);
    assert(mod_pow(17, 250545, 13427688667394608761327070753331941386769nat) == 3755038388938574867305216727936616577007nat);
    lemma_fundamental_div_mod_converse(3755038388938574867305216727936616577007int * 3755038388938574867305216727936616577007int, m, 1050092361512750898241506526601663351211int, 2379844187177985371284850956246325550790int);
    assert(mod_pow(17, 501090, 13427688667394608761327070753331941386769nat) == 2379844187177985371284850956246325550790nat);
    lemma_fundamental_div_mod_converse(2379844187177985371284850956246325550790int * 2379844187177985371284850956246325550790int, m, 421789519814937189109565240538733969263int, 9725639762946811136557711996268828742853int);
    lemma_fundamental_div_mod_converse(9725639762946811136557711996268828742853int * 17, m, 12int, 4203611961360484185556254896586791987273int);
    assert(mod_pow(17, 1002181, 13427688667394608761327070753331941386769nat) == 4203611961360484185556254896586791987273nat);
    lemma_fundamental_div_mod_converse(4203611961360484185556254896586791987273int * 4203611961360484185556254896586791987273int, m, 1315963898135384576208899248971035733924int, 1760289919576380871798190938810335924973int);
    assert(mod_pow(17, 2004362, 13427688667394608761327070753331941386769nat) == 1760289919576380871798190938810335924973nat);
    lemma_fundamental_div_mod_converse(1760289919576380871798190938810335924973int * 1760289919576380871798190938810335924973int, m, 230763512449194331159177157223820638193int, 5669599580068104327690062558540458782312int);
    lemma_fundamental_div_mod_converse(5669599580068104327690062558540458782312int * 17, m, 7int, 2389372189395512241441568221864209591921int);
    assert(mod_pow(17, 4008725, 13427688667394608761327070753331941386769nat) == 2389372189395512241441568221864209591921nat);
    lemma_fundamental_div_mod_converse(2389372189395512241441568221864209591921int * 2389372189395512241441568221864209591921int, m, 425173654295370800788101279688787545210int, 8932821470762926047066190223038665143751int);
    lemma_fundamental_div_mod_converse(8932821470762926047066190223038665143751int * 17, m, 11int, 4153389661629046425527455505005952189308int);
    assert(mod_pow(17, 8017451, 13427688667394608761327070753331941386769nat) == 4153389661629046425527455505005952189308nat);
    lemma_fundamental_div_mod_converse(4153389661629046425527455505005952189308int * 4153389661629046425527455505005952189308int, m, 1284707004208059966478996807117753941057int, 4191902676206107020827850641582603844031int);
    lemma_fundamental_div_mod_converse(4191902676206107020827850641582603844031int * 17, m, 5int, 4123902158530775547438107140244558414682int);
    assert(mod_pow(17, 16034903, 13427688667394608761327070753331941386769nat) == 4123902158530775547438107140244558414682nat);
    lemma_fundamental_div_mod_converse(4123902158530775547438107140244558414682int * 4123902158530775547438107140244558414682int, m, 1266529887189780643526841126157398624483int, 6184632205625790721891251872352977495697int);
    lemma_fundamental_div_mod_converse(6184632205625790721891251872352977495697int * 17, m, 7int, 11144926823876180942861786556677027719466int);
    assert(mod_pow(17, 32069807, 13427688667394608761327070753331941386769nat) == 11144926823876180942861786556677027719466nat);
    lemma_fundamental_div_mod_converse(11144926823876180942861786556677027719466int * 11144926823876180942861786556677027719466int, m, 9250243804889715429961589177336134999990int, 2301853868915018878240321496054394192846int);
    assert(mod_pow(17, 64139614, 13427688667394608761327070753331941386769nat) == 2301853868915018878240321496054394192846nat);
    lemma_fundamental_div_mod_converse(2301853868915018878240321496054394192846int * 2301853868915018878240321496054394192846int, m, 394597414721495889455757200521661368490int, 5926802405875009870732905596982918070906int);
    lemma_fundamental_div_mod_converse(5926802405875009870732905596982918070906int * 17, m, 7int, 6761820228112906473169899875386017498019int);
    assert(mod_pow(17, 128279229, 13427688667394608761327070753331941386769nat) == 6761820228112906473169899875386017498019nat);
    lemma_fundamental_div_mod_converse(6761820228112906473169899875386017498019int * 6761820228112906473169899875386017498019int, m, 3405069474714624636051500053256969186313int, 10737531343728885806505293519209914831664int);
    lemma_fundamental_div_mod_converse(10737531343728885806505293519209914831664int * 17, m, 13int, 7978080167261144813338070033253314110291int);
    assert(mod_pow(17, 256558459, 13427688667394608761327070753331941386769nat) == 7978080167261144813338070033253314110291nat);
    lemma_fundamental_div_mod_converse(7978080167261144813338070033253314110291int * 7978080167261144813338070033253314110291int, m, 4740187587890780283650987309108949474866int, 2782937143533378890034509184746561656727int);
    assert(mod_pow(17, 513116918, 13427688667394608761327070753331941386769nat) == 2782937143533378890034509184746561656727nat);
    lemma_fundamental_div_mod_converse(2782937143533378890034509184746561656727int * 2782937143533378890034509184746561656727int, m, 576773809454166003378948090940583600431int, 4229124099301408205327328378717858255090int);
    assert(mod_pow(17, 1026233836, 13427688667394608761327070753331941386769nat) == 4229124099301408205327328378717858255090nat);
    lemma_fundamental_div_mod_converse(4229124099301408205327328378717858255090int * 4229124099301408205327328378717858255090int, m, 1331985801154435862194267410552091083486int, 4124174495457767173324699317716916111366int);
    lemma_fundamental_div_mod_converse(4124174495457767173324699317716916111366int * 17, m, 5int, 2972523085808998139884534634527866959377int);
    assert(mod_pow(17, 2052467673, 13427688667394608761327070753331941386769nat) == 2972523085808998139884534634527866959377nat);
    lemma_fundamental_div_mod_converse(2972523085808998139884534634527866959377int * 2972523085808998139884534634527866959377int, m, 658035326446237004761628990639431547003int, 4586276455054466225545921812896542424822int);
    lemma_fundamental_div_mod_converse(4586276455054466225545921812896542424822int * 17, m, 5int, 10828256398952882027645317052581514288129int);
    assert(mod_pow(17, 4104935347, 13427688667394608761327070753331941386769nat) == 10828256398952882027645317052581514288129nat);
    lemma_fundamental_div_mod_converse(10828256398952882027645317052581514288129int * 10828256398952882027645317052581514288129int, m, 8732041645125096650578159188938482431130int, 1481709203612955370288734604542894601671int);
    lemma_fundamental_div_mod_converse(1481709203612955370288734604542894601671int * 17, m, 1int, 11761367794025632533581417523897266841638int);
    assert(mod_pow(17, 8209870695, 13427688667394608761327070753331941386769nat) == 11761367794025632533581417523897266841638nat);
    lemma_fundamental_div_mod_converse(11761367794025632533581417523897266841638int * 11761367794025632533581417523897266841638int, m, 10301830479748803456590578228119396420380int, 13021273195511536982763805622840076570824int);
    assert(mod_pow(17, 16419741390, 13427688667394608761327070753331941386769nat) == 13021273195511536982763805622840076570824nat);
    lemma_fundamental_div_mod_converse(13021273195511536982763805622840076570824int * 13021273195511536982763805622840076570824int, m, 12627158689183841663140156738165263150830int, 2191030081171868759715635923086474670706int);
    assert(mod_pow(17, 32839482780, 13427688667394608761327070753331941386769nat) == 2191030081171868759715635923086474670706nat);
    lemma_fundamental_div_mod_converse(2191030081171868759715635923086474670706int * 2191030081171868759715635923086474670706int, m, 357515946006177004957483505344825129220int, 10036434575131799553184432358624711248256int);
    lemma_fundamental_div_mod_converse(10036434575131799553184432358624711248256int * 17, m, 12int, 9487123768505287268210501056636794579124int);
    assert(mod_pow(17, 65678965561, 13427688667394608761327070753331941386769nat) == 9487123768505287268210501056636794579124nat);
    lemma_fundamental_div_mod_converse(9487123768505287268210501056636794579124int * 9487123768505287268210501056636794579124int, m, 6702979167032016592239248815025216877779int, 5732549609929710878065494187766655901325int);
    lemma_fundamental_div_mod_converse(5732549609929710878065494187766655901325int * 17, m, 7int, 3459522697042823597823905918709560615142int);
    assert(mod_pow(17, 131357931123, 13427688667394608761327070753331941386769nat) == 3459522697042823597823905918709560615142nat);
    lemma_fundamental_div_mod_converse(3459522697042823597823905918709560615142int * 3459522697042823597823905918709560615142int, m, 891314774106739542810481231654711890875int, 2361703998046122236652402767491742847289int);
    assert(mod_pow(17, 262715862246, 13427688667394608761327070753331941386769nat) == 2361703998046122236652402767491742847289nat);
    lemma_fundamental_div_mod_converse(2361703998046122236652402767491742847289int * 2361703998046122236652402767491742847289int, m, 415383906534174636636802831864754916796int, 12514969858723073352881968462317324377397int);
    lemma_fundamental_div_mod_converse(12514969858723073352881968462317324377397int * 17, m, 15int, 11339157587373115579087402559415393614214int);
    assert(mod_pow(17, 525431724493, 13427688667394608761327070753331941386769nat) == 11339157587373115579087402559415393614214nat);
    lemma_fundamental_div_mod_converse(11339157587373115579087402559415393614214int * 11339157587373115579087402559415393614214int, m, 9575474824903663296130774781885599663704int, 3152755054199045047943099788703667705420int);
    assert(mod_pow(17, 1050863448986, 13427688667394608761327070753331941386769nat) == 3152755054199045047943099788703667705420nat);
    lemma_fundamental_div_mod_converse(3152755054199045047943099788703667705420int * 3152755054199045047943099788703667705420int, m, 740251332749008978516360438906123711293int, 12265785439673152801340821809176491294083int);
    assert(mod_pow(17, 2101726897972, 13427688667394608761327070753331941386769nat) == 12265785439673152801340821809176491294083nat);
    lemma_fundamental_div_mod_converse(12265785439673152801340821809176491294083int * 12265785439673152801340821809176491294083int, m, 11204422159222568697468993603031579480593int, 10645585915732182502393517363606848336872int);
    lemma_fundamental_div_mod_converse(10645585915732182502393517363606848336872int * 17, m, 13int, 6415007891317188643437875388001183698827int);
    assert(mod_pow(17, 4203453795945, 13427688667394608761327070753331941386769nat) == 6415007891317188643437875388001183698827nat);
    lemma_fundamental_div_mod_converse(6415007891317188643437875388001183698827int * 6415007891317188643437875388001183698827int, m, 3064736401402330141404399512426340039602int, 3341355966604526387114219880274782349991int);
    lemma_fundamental_div_mod_converse(3341355966604526387114219880274782349991int * 17, m, 4int, 3092296762698513535633454951343534402771int);
    assert(mod_pow(17, 8406907591891, 13427688667394608761327070753331941386769nat) == 3092296762698513535633454951343534402771nat);
    lemma_fundamental_div_mod_converse(3092296762698513535633454951343534402771int * 3092296762698513535633454951343534402771int, m, 712132929609477744092494590236304834124int, 10435028756108366550105814907888579173085int);
    assert(mod_pow(17, 16813815183782, 13427688667394608761327070753331941386769nat) == 10435028756108366550105814907888579173085nat);
    lemma_fundamental_div_mod_converse(10435028756108366550105814907888579173085int * 10435028756108366550105814907888579173085int, m, 8109349854470266976428755517377370470665int, 945821652567725781354910354212054785840int);
    lemma_fundamental_div_mod_converse(945821652567725781354910354212054785840int * 17, m, 1int, 2651279426256729521706405268272989972511int);
    assert(mod_pow(17, 33627630367565, 13427688667394608761327070753331941386769nat) == 2651279426256729521706405268272989972511nat);
    lemma_fundamental_div_mod_converse(2651279426256729521706405268272989972511int * 2651279426256729521706405268272989972511int, m, 523491627651515498993307034488081222369int, 12479638496993697710648836175482012209360int);
    lemma_fundamental_div_mod_converse(12479638496993697710648836175482012209360int * 17, m, 15int, 10738524437973729661124153683215086757585int);
    assert(mod_pow(17, 67255260735131, 13427688667394608761327070753331941386769nat) == 10738524437973729661124153683215086757585nat);
    lemma_fundamental_div_mod_converse(10738524437973729661124153683215086757585int * 10738524437973729661124153683215086757585int, m, 8587919333054800136406938158905419082063int, 10692446855218326379471483750321321607778int);
    assert(mod_pow(17, 134510521470262, 13427688667394608761327070753331941386769nat) == 10692446855218326379471483750321321607778nat);
    lemma_fundamental_div_mod_converse(10692446855218326379471483750321321607778int * 10692446855218326379471483750321321607778int, m, 8514378206376121157549488246599050823786int, 9141236202153591520336281400402179209850int);
    assert(mod_pow(17, 269021042940524, 13427688667394608761327070753331941386769nat) == 9141236202153591520336281400402179209850nat);
    lemma_fundamental_div_mod_converse(9141236202153591520336281400402179209850int * 9141236202153591520336281400402179209850int, m, 6223126062378172166553316029200170443104int, 6814254654266589233661684748463364131524int);
    lemma_fundamental_div_mod_converse(6814254654266589233661684748463364131524int * 17, m, 8int, 8420819783375146881632074697221659141756int);
    assert(mod_pow(17, 538042085881049, 13427688667394608761327070753331941386769nat) == 8420819783375146881632074697221659141756nat);
    lemma_fundamental_div_mod_converse(8420819783375146881632074697221659141756int * 8420819783375146881632074697221659141756int, m, 5280894395196090858092398396276844073078int, 2920648250975871445964555193716804458554int);
    lemma_fundamental_div_mod_converse(2920648250975871445964555193716804458554int * 17, m, 3int, 9367954264405988297416226033189851635111int);
    assert(mod_pow(17, 1076084171762099, 13427688667394608761327070753331941386769nat) == 9367954264405988297416226033189851635111nat);
    lemma_fundamental_div_mod_converse(9367954264405988297416226033189851635111int * 9367954264405988297416226033189851635111int, m, 6535642080613583805702462850697858159245int, 13406635951158708915865634397473349952916int);
    lemma_fundamental_div_mod_converse(13406635951158708915865634397473349952916int * 17, m, 16int, 13069792491384311388482652703735887011268int);
    assert(mod_pow(17, 2152168343524199, 13427688667394608761327070753331941386769nat) == 13069792491384311388482652703735887011268nat);
    lemma_fundamental_div_mod_converse(13069792491384311388482652703735887011268int * 13069792491384311388482652703735887011268int, m, 12721435535114327458298878458038394155099int, 1534756221855925095039357324563426482693int);
    assert(mod_pow(17, 4304336687048398, 13427688667394608761327070753331941386769nat) == 1534756221855925095039357324563426482693nat);
    lemma_fundamental_div_mod_converse(1534756221855925095039357324563426482693int * 1534756221855925095039357324563426482693int, m, 175419368058859652948003774875329151461int, 6708937028009286651943029709509046112740int);
    assert(mod_pow(17, 8608673374096796, 13427688667394608761327070753331941386769nat) == 6708937028009286651943029709509046112740nat);
    lemma_fundamental_div_mod_converse(6708937028009286651943029709509046112740int * 6708937028009286651943029709509046112740int, m, 3352016654592826118445852992807977382939int, 1779470449171994775077651329945769373509int);
    lemma_fundamental_div_mod_converse(1779470449171994775077651329945769373509int * 17, m, 2int, 3395620301134693653665931102414196576115int);
    assert(mod_pow(17, 17217346748193593, 13427688667394608761327070753331941386769nat) == 3395620301134693653665931102414196576115nat);
    lemma_fundamental_div_mod_converse(3395620301134693653665931102414196576115int * 3395620301134693653665931102414196576115int, m, 858691135539657546430667458954279622949int, 13226974293854317640285985919299491131444int);
    lemma_fundamental_div_mod_converse(13226974293854317640285985919299491131444int * 17, m, 16int, 10015544317209659703628628574780287046244int);
    assert(mod_pow(17, 34434693496387187, 13427688667394608761327070753331941386769nat) == 10015544317209659703628628574780287046244nat);
    lemma_fundamental_div_mod_converse(10015544317209659703628628574780287046244int * 10015544317209659703628628574780287046244int, m, 7470468704980348811449118310995785973437int, 11352834259428937704753621249389817252483int);
    lemma_fundamental_div_mod_converse(11352834259428937704753621249389817252483int * 17, m, 14int, 5010541066767418322232570692979713877445int);
    assert(mod_pow(17, 68869386992774375, 13427688667394608761327070753331941386769nat) == 5010541066767418322232570692979713877445nat);
    lemma_fundamental_div_mod_converse(5010541066767418322232570692979713877445int * 5010541066767418322232570692979713877445int, m, 1869683041037771857090452859372421617803int, 10005843960731602757004579032034160679518int);
    lemma_fundamental_div_mod_converse(10005843960731602757004579032034160679518int * 17, m, 12int, 8967083323701941733152994504597434910578int);
    assert(mod_pow(17, 137738773985548751, 13427688667394608761327070753331941386769nat) == 8967083323701941733152994504597434910578nat);
    lemma_fundamental_div_mod_converse(8967083323701941733152994504597434910578int * 8967083323701941733152994504597434910578int, m, 5988266880916240398208087939123306654728int, 2078131921134802772967767758084265800252int);
    assert(mod_pow(17, 275477547971097502, 13427688667394608761327070753331941386769nat) == 2078131921134802772967767758084265800252nat);
    lemma_fundamental_div_mod_converse(2078131921134802772967767758084265800252int * 2078131921134802772967767758084265800252int, m, 321621418891400001386437391109928855780int, 2692622285705834777191256271567362088684int);
    assert(mod_pow(17, 550955095942195004, 13427688667394608761327070753331941386769nat) == 2692622285705834777191256271567362088684nat);
    lemma_fundamental_div_mod_converse(2692622285705834777191256271567362088684int * 2692622285705834777191256271567362088684int, m, 539945105451010011672468110354556815766int, 10606129598958820826957604902104197851802int);
    assert(mod_pow(17, 1101910191884390008, 13427688667394608761327070753331941386769nat) == 10606129598958820826957604902104197851802nat);
    lemma_fundamental_div_mod_converse(10606129598958820826957604902104197851802int * 10606129598958820826957604902104197851802int, m, 8377464495662675362591660455171365899167int, 3227621768940940111752942267740952725781int);
    lemma_fundamental_div_mod_converse(3227621768940940111752942267740952725781int * 17, m, 4int, 1158815402417546854491735538268430791201int);
    assert(mod_pow(17, 2203820383768780017, 13427688667394608761327070753331941386769nat) == 1158815402417546854491735538268430791201nat);
    lemma_fundamental_div_mod_converse(1158815402417546854491735538268430791201int * 1158815402417546854491735538268430791201int, m, 100006275848566909852688877710192267973int, 8336191432770658549703523555215974373164int);
    lemma_fundamental_div_mod_converse(8336191432770658549703523555215974373164int * 17, m, 10int, 7438367683155107731689192905352150476098int);
    assert(mod_pow(17, 4407640767537560035, 13427688667394608761327070753331941386769nat) == 7438367683155107731689192905352150476098nat);
    lemma_fundamental_div_mod_converse(7438367683155107731689192905352150476098int * 7438367683155107731689192905352150476098int, m, 4120538922246392920965470967363494749579int, 7904947149065110291040977327544430385353int);
    assert(mod_pow(17, 8815281535075120070, 13427688667394608761327070753331941386769nat) == 7904947149065110291040977327544430385353nat);
    lemma_fundamental_div_mod_converse(7904947149065110291040977327544430385353int * 7904947149065110291040977327544430385353int, m, 4653681730143753521160758468080705095564int, 12269575507627199541472516432777246741893int);
    lemma_fundamental_div_mod_converse(12269575507627199541472516432777246741893int * 17, m, 15int, 7167453618743260785126718057234073810646int);
    assert(mod_pow(17, 17630563070150240141nat, 13427688667394608761327070753331941386769nat) == 7167453618743260785126718057234073810646nat);
    lemma_fundamental_div_mod_converse(7167453618743260785126718057234073810646int * 7167453618743260785126718057234073810646int, m, 3825855115451058021121714258292043370066int, 7003720950706049215919205117939159880562int);
    assert(mod_pow(17, 35261126140300480282nat, 13427688667394608761327070753331941386769nat) == 7003720950706049215919205117939159880562nat);
    lemma_fundamental_div_mod_converse(7003720950706049215919205117939159880562int * 7003720950706049215919205117939159880562int, m, 3653056633228932885112685317734038985669int, 243069760942393244161424389752128222383int);
    assert(mod_pow(17, 70522252280600960564nat, 13427688667394608761327070753331941386769nat) == 243069760942393244161424389752128222383nat);
    lemma_fundamental_div_mod_converse(243069760942393244161424389752128222383int * 243069760942393244161424389752128222383int, m, 4400080322688635212315568790489215433int, 7756214316005749870346123641242685392712int);
    lemma_fundamental_div_mod_converse(7756214316005749870346123641242685392712int * 17, m, 9int, 11006445365546268943940465121138179195183int);
    assert(mod_pow(17, 141044504561201921129nat, 13427688667394608761327070753331941386769nat) == 11006445365546268943940465121138179195183nat);
    lemma_fundamental_div_mod_converse(11006445365546268943940465121138179195183int * 11006445365546268943940465121138179195183int, m, 9021793890627957533454445510168195769554int, 7057810609630507865401065920987701772463int);
    assert(mod_pow(17, 282089009122403842258nat, 13427688667394608761327070753331941386769nat) == 7057810609630507865401065920987701772463nat);
    lemma_fundamental_div_mod_converse(7057810609630507865401065920987701772463int * 7057810609630507865401065920987701772463int, m, 3709699549585861807813915495589769956932int, 435014769818694018189360416850340453661int);
    assert(mod_pow(17, 564178018244807684516nat, 13427688667394608761327070753331941386769nat) == 435014769818694018189360416850340453661nat);
    lemma_fundamental_div_mod_converse(435014769818694018189360416850340453661int * 435014769818694018189360416850340453661int, m, 14093106762292054017593682074701611081int, 46799326886457033005089257289651115632int);
    assert(mod_pow(17, 1128356036489615369032nat, 13427688667394608761327070753331941386769nat) == 46799326886457033005089257289651115632nat);
    lemma_fundamental_div_mod_converse(46799326886457033005089257289651115632int * 46799326886457033005089257289651115632int, m, 163109009396657609208078787733261133int, 938733413561709899879365399307406610147int);
    assert(mod_pow(17, 2256712072979230738064nat, 13427688667394608761327070753331941386769nat) == 938733413561709899879365399307406610147nat);
    lemma_fundamental_div_mod_converse(938733413561709899879365399307406610147int * 938733413561709899879365399307406610147int, m, 65627111527914548645031081952271309483int, 10497863650051569094560754229951042931182int);
    lemma_fundamental_div_mod_converse(10497863650051569094560754229951042931182int * 17, m, 13int, 3903729374746760710280902115852491802097int);
    assert(mod_pow(17, 4513424145958461476129nat, 13427688667394608761327070753331941386769nat) == 3903729374746760710280902115852491802097nat);
    lemma_fundamental_div_mod_converse(3903729374746760710280902115852491802097int * 3903729374746760710280902115852491802097int, m, 1134901427098517734074248278627095597646int, 11507132322571065975408279413242521651635int);
    assert(mod_pow(17, 9026848291916922952258nat, 13427688667394608761327070753331941386769nat) == 11507132322571065975408279413242521651635nat);
    lemma_fundamental_div_mod_converse(11507132322571065975408279413242521651635int * 11507132322571065975408279413242521651635int, m, 9861272298537157521118861603403672541385int, 6937156152485062269855765221864854238160int);
    lemma_fundamental_div_mod_converse(6937156152485062269855765221864854238160int * 17, m, 8int, 10510145253089188496931442745046990954568int);
    assert(mod_pow(17, 18053696583833845904517nat, 13427688667394608761327070753331941386769nat) == 10510145253089188496931442745046990954568nat);
    lemma_fundamental_div_mod_converse(10510145253089188496931442745046990954568int * 10510145253089188496931442745046990954568int, m, 8226520287833461215256696490566803793778int, 4773153341260435799477015154612226343342int);
    assert(mod_pow(17, 36107393167667691809034nat, 13427688667394608761327070753331941386769nat) == 4773153341260435799477015154612226343342nat);
    lemma_fundamental_div_mod_converse(4773153341260435799477015154612226343342int * 4773153341260435799477015154612226343342int, m, 1696717386254850880937179902181227402873int, 1985994595538841218124239380708592941627int);
    lemma_fundamental_div_mod_converse(1985994595538841218124239380708592941627int * 17, m, 2int, 6906530789371083185457927965382197234121int);
    assert(mod_pow(17, 72214786335335383618069nat, 13427688667394608761327070753331941386769nat) == 6906530789371083185457927965382197234121nat);
    lemma_fundamental_div_mod_converse(6906530789371083185457927965382197234121int * 6906530789371083185457927965382197234121int, m, 3552373660580714121084692272567942079099int, 3440291531409357951274591244151336601510int);
    lemma_fundamental_div_mod_converse(3440291531409357951274591244151336601510int * 17, m, 4int, 4774201364380650126359768137244956678594int);
    assert(mod_pow(17, 144429572670670767236139nat, 13427688667394608761327070753331941386769nat) == 4774201364380650126359768137244956678594nat);
    lemma_fundamental_div_mod_converse(4774201364380650126359768137244956678594int * 4774201364380650126359768137244956678594int, m, 1697462551615490744100372699188444482560int, 658646687745037486991583062871182568196int);
    lemma_fundamental_div_mod_converse(658646687745037486991583062871182568196int * 17, m, 0int, 11196993691665637278856912068810103659332int);
    assert(mod_pow(17, 288859145341341534472279nat, 13427688667394608761327070753331941386769nat) == 11196993691665637278856912068810103659332nat);
    lemma_fundamental_div_mod_converse(11196993691665637278856912068810103659332int * 11196993691665637278856912068810103659332int, m, 9336876273846933922516057601706519636559int, 3165396569663675354586327980172779398353int);
    lemma_fundamental_div_mod_converse(3165396569663675354586327980172779398353int * 17, m, 4int, 100987014704045982659292649609484224925int);
    assert(mod_pow(17, 577718290682683068944559nat, 13427688667394608761327070753331941386769nat) == 100987014704045982659292649609484224925nat);
    lemma_fundamental_div_mod_converse(100987014704045982659292649609484224925int * 100987014704045982659292649609484224925int, m, 759503544612194482125260618729244643int, 8663422601121016356847418462094706927158int);
    assert(mod_pow(17, 1155436581365366137889118nat, 13427688667394608761327070753331941386769nat) == 8663422601121016356847418462094706927158nat);
    lemma_fundamental_div_mod_converse(8663422601121016356847418462094706927158int * 8663422601121016356847418462094706927158int, m, 5589561466960749199218900211914405215670int, 11404503120086875366716240916404388486734int);
    lemma_fundamental_div_mod_converse(11404503120086875366716240916404388486734int * 17, m, 14int, 5888911697952358575597105032227424859712int);
    assert(mod_pow(17, 2310873162730732275778237nat, 13427688667394608761327070753331941386769nat) == 5888911697952358575597105032227424859712nat);
    lemma_fundamental_div_mod_converse(5888911697952358575597105032227424859712int * 5888911697952358575597105032227424859712int, m, 2582669426234842486599876444710787704863int, 13414961751318947846541210657443975565297int);
    assert(mod_pow(17, 4621746325461464551556474nat, 13427688667394608761327070753331941386769nat) == 13414961751318947846541210657443975565297nat);
    lemma_fundamental_div_mod_converse(13414961751318947846541210657443975565297int * 13414961751318947846541210657443975565297int, m, 13402246897959127985308301089933452316927int, 10224918776568976059972958803306238159346int);
    lemma_fundamental_div_mod_converse(10224918776568976059972958803306238159346int * 17, m, 12int, 12691355192937287883615450616222752067654int);
    assert(mod_pow(17, 9243492650922929103112949nat, 13427688667394608761327070753331941386769nat) == 12691355192937287883615450616222752067654nat);
    lemma_fundamental_div_mod_converse(12691355192937287883615450616222752067654int * 12691355192937287883615450616222752067654int, m, 11995399999436312059209399160072229484533int, 10464217893912703057824600721638136719839int);
    lemma_fundamental_div_mod_converse(10464217893912703057824600721638136719839int * 17, m, 13int, 3331751520386038085766292474533086209266int);
    assert(mod_pow(17, 18486985301845858206225899nat, 13427688667394608761327070753331941386769nat) == 3331751520386038085766292474533086209266nat);
    lemma_fundamental_div_mod_converse(3331751520386038085766292474533086209266int * 3331751520386038085766292474533086209266int, m, 826692401690047040586414376830320998189int, 4026637748290176646907073614316546697415int);
    lemma_fundamental_div_mod_converse(4026637748290176646907073614316546697415int * 17, m, 5int, 1314398383959959190784897676721586922210int);
    assert(mod_pow(17, 36973970603691716412451799nat, 13427688667394608761327070753331941386769nat) == 1314398383959959190784897676721586922210nat);
    lemma_fundamental_div_mod_converse(1314398383959959190784897676721586922210int * 1314398383959959190784897676721586922210int, m, 128662732250536239272079110266381433243int, 12992870016870206027225694295305374322233int);
    assert(mod_pow(17, 73947941207383432824903598nat, 13427688667394608761327070753331941386769nat) == 12992870016870206027225694295305374322233nat);
    lemma_fundamental_div_mod_converse(12992870016870206027225694295305374322233int * 12992870016870206027225694295305374322233int, m, 12572131768679151973225033465327623123387int, 5044393495963260449530099238592141839686int);
    lemma_fundamental_div_mod_converse(5044393495963260449530099238592141839686int * 17, m, 6int, 5188557427007775074049262536074762954048int);
    assert(mod_pow(17, 147895882414766865649807197nat, 13427688667394608761327070753331941386769nat) == 5188557427007775074049262536074762954048nat);
    lemma_fundamental_div_mod_converse(5188557427007775074049262536074762954048int * 5188557427007775074049262536074762954048int, m, 2004896660936739111948505073351362355744int, 8710936376401216322374148760897286835168int);
    assert(mod_pow(17, 295791764829533731299614394nat, 13427688667394608761327070753331941386769nat) == 8710936376401216322374148760897286835168nat);
    lemma_fundamental_div_mod_converse(8710936376401216322374148760897286835168int * 8710936376401216322374148760897286835168int, m, 5651040505426994273081708077908643928947int, 7859888484351732137188301767905719685981int);
    lemma_fundamental_div_mod_converse(7859888484351732137188301767905719685981int * 17, m, 9int, 12768906227427967480257493274409762180756int);
    assert(mod_pow(17, 591583529659067462599228789nat, 13427688667394608761327070753331941386769nat) == 12768906227427967480257493274409762180756nat);
    lemma_fundamental_div_mod_converse(12768906227427967480257493274409762180756int * 12768906227427967480257493274409762180756int, m, 12142444636861285498463933198676617769076int, 1971599686488859536627582996278372976092int);
    lemma_fundamental_div_mod_converse(1971599686488859536627582996278372976092int * 17, m, 2int, 6661817335521394600014769430068457820026int);
    assert(mod_pow(17, 1183167059318134925198457579nat, 13427688667394608761327070753331941386769nat) == 6661817335521394600014769430068457820026nat);
    lemma_fundamental_div_mod_converse(6661817335521394600014769430068457820026int * 6661817335521394600014769430068457820026int, m, 3305096752773047687694166931822672589357int, 2300885670664254914486091554705556623143int);
    assert(mod_pow(17, 2366334118636269850396915158nat, 13427688667394608761327070753331941386769nat) == 2300885670664254914486091554705556623143nat);
    lemma_fundamental_div_mod_converse(2300885670664254914486091554705556623143int * 2300885670664254914486091554705556623143int, m, 394265535983365490223212667662676368466int, 495162473644131945119826356304461972095int);
    assert(mod_pow(17, 4732668237272539700793830316nat, 13427688667394608761327070753331941386769nat) == 495162473644131945119826356304461972095nat);
    lemma_fundamental_div_mod_converse(495162473644131945119826356304461972095int * 495162473644131945119826356304461972095int, m, 18259722978291943482393054168391853450int, 3568355189670513663785688361181341685975int);
    lemma_fundamental_div_mod_converse(3568355189670513663785688361181341685975int * 17, m, 4int, 6951283554820297239048419126755043114499int);
    assert(mod_pow(17, 9465336474545079401587660633nat, 13427688667394608761327070753331941386769nat) == 6951283554820297239048419126755043114499nat);
    lemma_fundamental_div_mod_converse(6951283554820297239048419126755043114499int * 6951283554820297239048419126755043114499int, m, 3598559979786213271969217168310208862907int, 12599051310349287551328851195965839343518int);
    lemma_fundamental_div_mod_converse(12599051310349287551328851195965839343518int * 17, m, 15int, 12768542265018756952684409031440148038271int);
    assert(mod_pow(17, 18930672949090158803175321267nat, 13427688667394608761327070753331941386769nat) == 12768542265018756952684409031440148038271nat);
    lemma_fundamental_div_mod_converse(12768542265018756952684409031440148038271int * 12768542265018756952684409031440148038271int, m, 12141752434985845075262319245049601034717int, 11911209934606850852512308840671387210068int);
    lemma_fundamental_div_mod_converse(11911209934606850852512308840671387210068int * 17, m, 15int, 1075238877397333072803188991434461769621int);
    assert(mod_pow(17, 37861345898180317606350642535nat, 13427688667394608761327070753331941386769nat) == 1075238877397333072803188991434461769621nat);
    lemma_fundamental_div_mod_converse(1075238877397333072803188991434461769621int * 1075238877397333072803188991434461769621int, m, 86101090969887976349895585923497938066int, 8407191377827230569696229281270764634887int);
    lemma_fundamental_div_mod_converse(8407191377827230569696229281270764634887int * 17, m, 10int, 8645366749116832071565190248283584925389int);
    assert(mod_pow(17, 75722691796360635212701285071nat, 13427688667394608761327070753331941386769nat) == 8645366749116832071565190248283584925389nat);
    lemma_fundamental_div_mod_converse(8645366749116832071565190248283584925389int * 8645366749116832071565190248283584925389int, m, 5566286803195392828798185273461332829667int, 6678810051999697064606481422153852325398int);
    lemma_fundamental_div_mod_converse(6678810051999697064606481422153852325398int * 17, m, 8int, 6118261544837980007693618149959958437614int);
    assert(mod_pow(17, 151445383592721270425402570143nat, 13427688667394608761327070753331941386769nat) == 6118261544837980007693618149959958437614nat);
    lemma_fundamental_div_mod_converse(6118261544837980007693618149959958437614int * 6118261544837980007693618149959958437614int, m, 2787756348710937279618495800160133419859int, 3444483970543999667324251435252945567425int);
    lemma_fundamental_div_mod_converse(3444483970543999667324251435252945567425int * 17, m, 4int, 4845472829669559299203991385972309099149int);
    assert(mod_pow(17, 302890767185442540850805140287nat, 13427688667394608761327070753331941386769nat) == 4845472829669559299203991385972309099149nat);
    lemma_fundamental_div_mod_converse(4845472829669559299203991385972309099149int * 4845472829669559299203991385972309099149int, m, 1748521843530462902563353768365296790687int, 4857118070668274658199550832032008303898int);
    lemma_fundamental_div_mod_converse(4857118070668274658199550832032008303898int * 17, m, 6int, 2004875196993016621429939624552492845652int);
    assert(mod_pow(17, 605781534370885081701610280575nat, 13427688667394608761327070753331941386769nat) == 2004875196993016621429939624552492845652nat);
    lemma_fundamental_div_mod_converse(2004875196993016621429939624552492845652int * 2004875196993016621429939624552492845652int, m, 299345974953834000718161068439353729150int, 683139644220903576155828814462075688754int);
    lemma_fundamental_div_mod_converse(683139644220903576155828814462075688754int * 17, m, 0int, 11613373951755360794649089845855286708818int);
    assert(mod_pow(17, 1211563068741770163403220561151nat, 13427688667394608761327070753331941386769nat) == 11613373951755360794649089845855286708818nat);
    lemma_fundamental_div_mod_converse(11613373951755360794649089845855286708818int * 11613373951755360794649089845855286708818int, m, 10044204768524694150306842481150855825301int, 7739577853768219730496513306130382114655int);
    lemma_fundamental_div_mod_converse(7739577853768219730496513306130382114655int * 17, m, 9int, 10723625507508256566497089424229023468214int);
    assert(mod_pow(17, 2423126137483540326806441122303nat, 13427688667394608761327070753331941386769nat) == 10723625507508256566497089424229023468214nat);
    lemma_fundamental_div_mod_converse(10723625507508256566497089424229023468214int * 10723625507508256566497089424229023468214int, m, 8564105623368951625285948491574405306675int, 2045496354661782775310900545596835966721int);
    lemma_fundamental_div_mod_converse(2045496354661782775310900545596835966721int * 17, m, 2int, 7918060694461089657631167768482328660719int);
    assert(mod_pow(17, 4846252274967080653612882244607nat, 13427688667394608761327070753331941386769nat) == 7918060694461089657631167768482328660719nat);
    lemma_fundamental_div_mod_converse(7918060694461089657631167768482328660719int * 7918060694461089657631167768482328660719int, m, 4669134555778657004640089664274455644300int, 11741912346278450017454346643462823330261int);
    assert(mod_pow(17, 9692504549934161307225764489214nat, 13427688667394608761327070753331941386769nat) == 11741912346278450017454346643462823330261nat);
    lemma_fundamental_div_mod_converse(11741912346278450017454346643462823330261int * 11741912346278450017454346643462823330261int, m, 10267776455263753886889613261459926703538int, 7863343736997234200454287072384219639399int);
    assert(mod_pow(17, 19385009099868322614451528978428nat, 13427688667394608761327070753331941386769nat) == 7863343736997234200454287072384219639399nat);
    lemma_fundamental_div_mod_converse(7863343736997234200454287072384219639399int * 7863343736997234200454287072384219639399int, m, 4604826359752873430095631184597017332408int, 11675820856173623066327801791257026971449int);
    assert(mod_pow(17, 38770018199736645228903057956856nat, 13427688667394608761327070753331941386769nat) == 11675820856173623066327801791257026971449nat);
    lemma_fundamental_div_mod_converse(11675820856173623066327801791257026971449int * 11675820856173623066327801791257026971449int, m, 10152513663538061947287094346334872954539int, 10302702663714691208296195508137108065110int);
    assert(mod_pow(17, 77540036399473290457806115913712nat, 13427688667394608761327070753331941386769nat) == 10302702663714691208296195508137108065110nat);
}

#[verifier::rlimit(100)]
pub proof fn lemma_pow_p134276_41_digits_by_2480874801745591()
    ensures
        mod_pow(17, 5412481378724403979982448nat, 13427688667394608761327070753331941386769nat) == 10265023407933947886775309589286649233988nat,
{
    let m = 13427688667394608761327070753331941386769int;
    lemma_fundamental_div_mod_converse(1, m, 0, 1);
    assert(mod_pow(17, 0, 13427688667394608761327070753331941386769nat) == 1);
    lemma_fundamental_div_mod_converse(1int * 1int, m, 0int, 1int);
    lemma_fundamental_div_mod_converse(1int * 17, m, 0int, 17int);
    assert(mod_pow(17, 1, 13427688667394608761327070753331941386769nat) == 17);
    lemma_fundamental_div_mod_converse(17int * 17int, m, 0int, 289int);
    assert(mod_pow(17, 2, 13427688667394608761327070753331941386769nat) == 289);
    lemma_fundamental_div_mod_converse(289int * 289int, m, 0int, 83521int);
    assert(mod_pow(17, 4, 13427688667394608761327070753331941386769nat) == 83521);
    lemma_fundamental_div_mod_converse(83521int * 83521int, m, 0int, 6975757441int);
    assert(mod_pow(17, 8, 13427688667394608761327070753331941386769nat) == 6975757441);
    lemma_fundamental_div_mod_converse(6975757441int * 6975757441int, m, 0int, 48661191875666868481int);
    lemma_fundamental_div_mod_converse(48661191875666868481int * 17, m, 0int, 827240261886336764177int);
    assert(mod_pow(17, 17, 13427688667394608761327070753331941386769nat) == 827240261886336764177nat);
    lemma_fundamental_div_mod_converse(827240261886336764177int * 827240261886336764177int, m, 50int, 12942017516044595982593182259157841148879int);
    lemma_fundamental_div_mod_converse(12942017516044595982593182259157841148879int * 17, m, 16int, 5171279094444391522850966352372237342639int);
    assert(mod_pow(17, 35, 13427688667394608761327070753331941386769nat) == 5171279094444391522850966352372237342639nat);
    lemma_fundamental_div_mod_converse(5171279094444391522850966352372237342639int * 5171279094444391522850966352372237342639int, m, 1991565945193039278619411921717957591653int, 8194739034853544226605068538316048445164int);
    lemma_fundamental_div_mod_converse(8194739034853544226605068538316048445164int * 17, m, 10int, 5033676918564164239015457618053409700098int);
    assert(mod_pow(17, 71, 13427688667394608761327070753331941386769nat) == 5033676918564164239015457618053409700098nat);
    lemma_fundamental_div_mod_converse(5033676918564164239015457618053409700098int * 5033676918564164239015457618053409700098int, m, 1886989186903896605992320507108811983666int, 7280847827201137576992796056380484694450int);
    lemma_fundamental_div_mod_converse(7280847827201137576992796056380484694450int * 17, m, 9int, 2925215055867859956933896178480767324729int);
    assert(mod_pow(17, 143, 13427688667394608761327070753331941386769nat) == 2925215055867859956933896178480767324729nat);
    lemma_fundamental_div_mod_converse(2925215055867859956933896178480767324729int * 2925215055867859956933896178480767324729int, m, 637256592331784364457591192998847496251int, 12889663246891753387235383323779266420422int);
    assert(mod_pow(17, 286, 13427688667394608761327070753331941386769nat) == 12889663246891753387235383323779266420422nat);
    lemma_fundamental_div_mod_converse(12889663246891753387235383323779266420422int * 12889663246891753387235383323779266420422int, m, 12373195620904209845801642289621252999955int, 1667400517320203949401125913853064062689int);
    lemma_fundamental_div_mod_converse(1667400517320203949401125913853064062689int * 17, m, 2int, 1490431459654249617164999028838206292175int);
    assert(mod_pow(17, 573, 13427688667394608761327070753331941386769nat) == 1490431459654249617164999028838206292175nat);
    lemma_fundamental_div_mod_converse(1490431459654249617164999028838206292175int * 1490431459654249617164999028838206292175int, m, 165433232103534866798395867571727149907int, 11428005917880090513283443354143936850142int);
    assert(mod_pow(17, 1146, 13427688667394608761327070753331941386769nat) == 11428005917880090513283443354143936850142nat);
    lemma_fundamental_div_mod_converse(11428005917880090513283443354143936850142int * 11428005917880090513283443354143936850142int, m, 9726120592609980393195583099658303390692int, 1988094524892877995363140736763278866016int);
    assert(mod_pow(17, 2292, 13427688667394608761327070753331941386769nat) == 1988094524892877995363140736763278866016nat);
    lemma_fundamental_div_mod_converse(1988094524892877995363140736763278866016int * 1988094524892877995363140736763278866016int, m, 294355934056367323774285275816746882898int, 9142594950174990804905581241250710135694int);
    assert(mod_pow(17, 4584, 13427688667394608761327070753331941386769nat) == 9142594950174990804905581241250710135694nat);
    lemma_fundamental_div_mod_converse(9142594950174990804905581241250710135694int * 9142594950174990804905581241250710135694int, m, 6224976203531813123286562277793854239735int, 5071318603710135870013043949617809795421int);
    lemma_fundamental_div_mod_converse(5071318603710135870013043949617809795421int * 17, m, 6int, 5646284258704657222259322623511118201543int);
    assert(mod_pow(17, 9169, 13427688667394608761327070753331941386769nat) == 5646284258704657222259322623511118201543nat);
    lemma_fundamental_div_mod_converse(5646284258704657222259322623511118201543int * 5646284258704657222259322623511118201543int, m, 2374237794737448204188164794479449487952int, 4245136718707111509051224168076929873761int);
    assert(mod_pow(17, 18338, 13427688667394608761327070753331941386769nat) == 4245136718707111509051224168076929873761nat);
    lemma_fundamental_div_mod_converse(4245136718707111509051224168076929873761int * 4245136718707111509051224168076929873761int, m, 1342091420712992656472666352962869517943int, 12496277867679886216518156342285447988954int);
    assert(mod_pow(17, 36676, 13427688667394608761327070753331941386769nat) == 12496277867679886216518156342285447988954nat);
    lemma_fundamental_div_mod_converse(12496277867679886216518156342285447988954int * 12496277867679886216518156342285447988954int, m, 11629474320882172669152961942438079039119int, 7183728274395347270858951169291045997605int);
    assert(mod_pow(17, 73352, 13427688667394608761327070753331941386769nat) == 7183728274395347270858951169291045997605nat);
    lemma_fundamental_div_mod_converse(7183728274395347270858951169291045997605int * 7183728274395347270858951169291045997605int, m, 3843249065318128295151368211402537479508int, 7207878749172945553774594254506225906373int);
    lemma_fundamental_div_mod_converse(7207878749172945553774594254506225906373int * 17, m, 9int, 1684740729388595562224465546618367927420int);
    assert(mod_pow(17, 146705, 13427688667394608761327070753331941386769nat) == 1684740729388595562224465546618367927420nat);
    lemma_fundamental_div_mod_converse(1684740729388595562224465546618367927420int * 1684740729388595562224465546618367927420int, m, 211380483683164352286251725068984710368int, 6599457811616731890850262247294655535408int);
    lemma_fundamental_div_mod_converse(6599457811616731890850262247294655535408int * 17, m, 8int, 4769273458327572053837892177353613007784int);
    assert(mod_pow(17, 293411, 13427688667394608761327070753331941386769nat) == 4769273458327572053837892177353613007784nat);
    lemma_fundamental_div_mod_converse(4769273458327572053837892177353613007784int * 4769273458327572053837892177353613007784int, m, 1693960135934643178231793144342704895153int, 1481466961184730838207360715435678159999int);
    assert(mod_pow(17, 586822, 13427688667394608761327070753331941386769nat) == 1481466961184730838207360715435678159999nat);
    lemma_fundamental_div_mod_converse(1481466961184730838207360715435678159999int * 1481466961184730838207360715435678159999int, m, 163449154314341857809642983537726075442int, 8366099458535469507516358733044849053103int);
    assert(mod_pow(17, 1173644, 13427688667394608761327070753331941386769nat) == 8366099458535469507516358733044849053103nat);
    lemma_fundamental_div_mod_converse(8366099458535469507516358733044849053103int * 8366099458535469507516358733044849053103int, m, 5212484581956578662547319493792182503913int, 3073015367875096202706531033215725001512int);
    lemma_fundamental_div_mod_converse(3073015367875096202706531033215725001512int * 17, m, 3int, 11958195251692809162029815304671500865397int);
    assert(mod_pow(17, 2347289, 13427688667394608761327070753331941386769nat) == 11958195251692809162029815304671500865397nat);
    lemma_fundamental_div_mod_converse(11958195251692809162029815304671500865397int * 11958195251692809162029815304671500865397int, m, 10649519602345279318423045216367614838978int, 13139123713867600169496746619699957285527int);
    lemma_fundamental_div_mod_converse(13139123713867600169496746619699957285527int * 17, m, 16int, 8522084457435462700211560481588211665655int);
    assert(mod_pow(17, 4694579, 13427688667394608761327070753331941386769nat) == 8522084457435462700211560481588211665655nat);
    lemma_fundamental_div_mod_converse(8522084457435462700211560481588211665655int * 8522084457435462700211560481588211665655int, m, 5408669004667560817448167999741954438657int, 2384687540696928644488434483409984649792int);
    assert(mod_pow(17, 9389158, 13427688667394608761327070753331941386769nat) == 2384687540696928644488434483409984649792nat);
    lemma_fundamental_div_mod_converse(2384687540696928644488434483409984649792int * 2384687540696928644488434483409984649792int, m, 423508081518438270072160385249732084369int, 2365864355612663510860847808910117329503int);
    lemma_fundamental_div_mod_converse(2365864355612663510860847808910117329503int * 17, m, 2int, 13364316710626062161980271244808111828013int);
    assert(mod_pow(17, 18778317, 13427688667394608761327070753331941386769nat) == 13364316710626062161980271244808111828013nat);
    lemma_fundamental_div_mod_converse(13364316710626062161980271244808111828013int * 13364316710626062161980271244808111828013int, m, 13301243837713579807352394921475113745393int, 12848255277850998666738936221746486622952int);
    assert(mod_pow(17, 37556634, 13427688667394608761327070753331941386769nat) == 12848255277850998666738936221746486622952nat);
    lemma_fundamental_div_mod_converse(12848255277850998666738936221746486622952int * 12848255277850998666738936221746486622952int, m, 12293825674233201346069092479264439937515int, 12544557512025944145997198308444605455269int);
    assert(mod_pow(17, 75113268, 13427688667394608761327070753331941386769nat) == 12544557512025944145997198308444605455269nat);
    lemma_fundamental_div_mod_converse(12544557512025944145997198308444605455269int * 12544557512025944145997198308444605455269int, m, 11719509371307195555098678584359530616614int, 5257771158572004963107343656189928682195int);
    assert(mod_pow(17, 150226536, 13427688667394608761327070753331941386769nat) == 5257771158572004963107343656189928682195nat);
    lemma_fundamental_div_mod_converse(5257771158572004963107343656189928682195int * 5257771158572004963107343656189928682195int, m, 2058742814244548153480391673711521817502int, 12062775524631535188828481799316094586987int);
    assert(mod_pow(17, 300453072, 13427688667394608761327070753331941386769nat) == 12062775524631535188828481799316094586987nat);
    lemma_fundamental_div_mod_converse(12062775524631535188828481799316094586987int * 12062775524631535188828481799316094586987int, m, 10836604642985307150920486695575034231131int, 8652273738909941124835876929212298432430int);
    assert(mod_pow(17, 600906144, 13427688667394608761327070753331941386769nat) == 8652273738909941124835876929212298432430nat);
    lemma_fundamental_div_mod_converse(8652273738909941124835876929212298432430int * 8652273738909941124835876929212298432430int, m, 5575184434742792463044187247222615882079int, 13251075595303139679357944308127840892149int);
    lemma_fundamental_div_mod_converse(13251075595303139679357944308127840892149int * 17, m, 16int, 10425266441839634367851921184862232978229int);
    assert(mod_pow(17, 1201812289, 13427688667394608761327070753331941386769nat) == 10425266441839634367851921184862232978229nat);
    lemma_fundamental_div_mod_converse(10425266441839634367851921184862232978229int * 10425266441839634367851921184862232978229int, m, 8094183822362642407946932407816089470732int, 5350851226367406853169820196291870431533int);
    assert(mod_pow(17, 2403624578, 13427688667394608761327070753331941386769nat) == 5350851226367406853169820196291870431533nat);
    lemma_fundamental_div_mod_converse(5350851226367406853169820196291870431533int * 5350851226367406853169820196291870431533int, m, 2132281255242493554058500914930896453208int, 2617581686129532103078737633052601925137int);
    lemma_fundamental_div_mod_converse(2617581686129532103078737633052601925137int * 17, m, 3int, 4215822662018219468357327501898408567022int);
    assert(mod_pow(17, 4807249157, 13427688667394608761327070753331941386769nat) == 4215822662018219468357327501898408567022nat);
    lemma_fundamental_div_mod_converse(4215822662018219468357327501898408567022int * 4215822662018219468357327501898408567022int, m, 1323620256458845568296084889405819462383int, 7689440467986396471685804181260416537957int);
    lemma_fundamental_div_mod_converse(7689440467986396471685804181260416537957int * 17, m, 9int, 9871289949217261166715034301439608664348int);
    assert(mod_pow(17, 9614498315, 13427688667394608761327070753331941386769nat) == 9871289949217261166715034301439608664348nat);
    lemma_fundamental_div_mod_converse(9871289949217261166715034301439608664348int * 9871289949217261166715034301439608664348int, m, 7256823394939836852608860679061387521955int, 5875786824307701650109481831777392251709int);
    assert(mod_pow(17, 19228996630, 13427688667394608761327070753331941386769nat) == 5875786824307701650109481831777392251709nat);
    lemma_fundamental_div_mod_converse(5875786824307701650109481831777392251709int * 5875786824307701650109481831777392251709int, m, 2571170039750920846578785007587091158526int, 8171219100749006330660695593249955478187int);
    assert(mod_pow(17, 38457993260, 13427688667394608761327070753331941386769nat) == 8171219100749006330660695593249955478187nat);
    lemma_fundamental_div_mod_converse(8171219100749006330660695593249955478187int * 8171219100749006330660695593249955478187int, m, 4972473166925208260315985194056345425807int, 2631650175390668823858801220226451859386int);
    lemma_fundamental_div_mod_converse(2631650175390668823858801220226451859386int * 17, m, 3int, 4454986979457543721618408483853857449255int);
    assert(mod_pow(17, 76915986521, 13427688667394608761327070753331941386769nat) == 4454986979457543721618408483853857449255nat);
    lemma_fundamental_div_mod_converse(4454986979457543721618408483853857449255int * 4454986979457543721618408483853857449255int, m, 1478058471472378103423528593410449233307int, 7042313193651565950158960088056496139942int);
    lemma_fundamental_div_mod_converse(7042313193651565950158960088056496139942int * 17, m, 8int, 12297814952919751062085755470304903284862int);
    assert(mod_pow(17, 153831973043, 13427688667394608761327070753331941386769nat) == 12297814952919751062085755470304903284862nat);
    lemma_fundamental_div_mod_converse(12297814952919751062085755470304903284862int * 12297814952919751062085755470304903284862int, m, 11263014533803692845012627024957217994793int, 4373205242549532181573100182808077265227int);
    lemma_fundamental_div_mod_converse(4373205242549532181573100182808077265227int * 17, m, 5int, 7206045786369003280107349341077606575014int);
    assert(mod_pow(17, 307663946087, 13427688667394608761327070753331941386769nat) == 7206045786369003280107349341077606575014nat);
    lemma_fundamental_div_mod_converse(7206045786369003280107349341077606575014int * 7206045786369003280107349341077606575014int, m, 3867165612897841059771377008207567813074int, 4689306570653773784243932439011480282290int);
    assert(mod_pow(17, 615327892174, 13427688667394608761327070753331941386769nat) == 4689306570653773784243932439011480282290nat);
    lemma_fundamental_div_mod_converse(4689306570653773784243932439011480282290int * 4689306570653773784243932439011480282290int, m, 1637630768649875553060964020247379162848int, 2577386115121218160814789203938684085988int);
    assert(mod_pow(17, 1230655784348, 13427688667394608761327070753331941386769nat) == 2577386115121218160814789203938684085988nat);
    lemma_fundamental_div_mod_converse(2577386115121218160814789203938684085988int * 2577386115121218160814789203938684085988int, m, 494717992870218904054495658358088183768int, 6773240096238727685344213803584542170552int);
    lemma_fundamental_div_mod_converse(6773240096238727685344213803584542170552int * 17, m, 8int, 7723572296901500560235068634281685805232int);
    assert(mod_pow(17, 2461311568697, 13427688667394608761327070753331941386769nat) == 7723572296901500560235068634281685805232nat);
    lemma_fundamental_div_mod_converse(7723572296901500560235068634281685805232int * 7723572296901500560235068634281685805232int, m, 4442579099284328118319388761910305696727int, 8024265581671963600869115049919114168761int);
    assert(mod_pow(17, 4922623137394, 13427688667394608761327070753331941386769nat) == 8024265581671963600869115049919114168761nat);
    lemma_fundamental_div_mod_converse(8024265581671963600869115049919114168761int * 8024265581671963600869115049919114168761int, m, 4795228703920996047516937792440412978831int, 4497031543198643836188025059995607788082int);
    assert(mod_pow(17, 9845246274788, 13427688667394608761327070753331941386769nat) == 4497031543198643836188025059995607788082nat);
    lemma_fundamental_div_mod_converse(4497031543198643836188025059995607788082int * 4497031543198643836188025059995607788082int, m, 1506088888524068441794075677846138140939int, 7750822751620607974470318784097389402633int);
    lemma_fundamental_div_mod_converse(7750822751620607974470318784097389402633int * 17, m, 9int, 10914788770998856714051782549668147363840int);
    assert(mod_pow(17, 19690492549577, 13427688667394608761327070753331941386769nat) == 10914788770998856714051782549668147363840nat);
    lemma_fundamental_div_mod_converse(10914788770998856714051782549668147363840int * 10914788770998856714051782549668147363840int, m, 8872160865987532847682672427112691837009int, 4366314583356687836719255332027762411679int);
    lemma_fundamental_div_mod_converse(4366314583356687836719255332027762411679int * 17, m, 5int, 7088904580090649417591986877812254064698int);
    assert(mod_pow(17, 39380985099155, 13427688667394608761327070753331941386769nat) == 7088904580090649417591986877812254064698nat);
    lemma_fundamental_div_mod_converse(7088904580090649417591986877812254064698int * 7088904580090649417591986877812254064698int, m, 3742458541480374912368458433166872967496int, 1822542448706494783600640200542268370780int);
    lemma_fundamental_div_mod_converse(1822542448706494783600640200542268370780int * 17, m, 2int, 4127844293221193798556741902554679529722int);
    assert(mod_pow(17, 78761970198311, 13427688667394608761327070753331941386769nat) == 4127844293221193798556741902554679529722nat);
    lemma_fundamental_div_mod_converse(4127844293221193798556741902554679529722int * 4127844293221193798556741902554679529722int, m, 1268952455715887146607672629636525463843int, 13052551280532110432535528518792693304017int);
    lemma_fundamental_div_mod_converse(13052551280532110432535528518792693304017int * 17, m, 16int, 7050353090732137171870852766164723979985int);
    assert(mod_pow(17, 157523940396623, 13427688667394608761327070753331941386769nat) == 7050353090732137171870852766164723979985nat);
    lemma_fundamental_div_mod_converse(7050353090732137171870852766164723979985int * 7050353090732137171870852766164723979985int, m, 3701864105972081906557976436627337655417int, 9540392824292878538069541005566635622552int);
    assert(mod_pow(17, 315047880793246, 13427688667394608761327070753331941386769nat) == 9540392824292878538069541005566635622552nat);
    lemma_fundamental_div_mod_converse(9540392824292878538069541005566635622552int * 9540392824292878538069541005566635622552int, m, 6778463330240408124845538548476594562162int, 11429665984103987287210638976273956158126int);
    lemma_fundamental_div_mod_converse(11429665984103987287210638976273956158126int * 17, m, 14int, 6316680386243261224001872050010075273376int);
    assert(mod_pow(17, 630095761586493, 13427688667394608761327070753331941386769nat) == 6316680386243261224001872050010075273376nat);
    lemma_fundamental_div_mod_converse(6316680386243261224001872050010075273376int * 6316680386243261224001872050010075273376int, m, 2971505527890098919663600791755716484243int, 2611427246331962012879035691786577256509int);
    assert(mod_pow(17, 1260191523172986, 13427688667394608761327070753331941386769nat) == 2611427246331962012879035691786577256509nat);
    lemma_fundamental_div_mod_converse(2611427246331962012879035691786577256509int * 2611427246331962012879035691786577256509int, m, 507872384578316267098342391171870940671int, 7004189763854537593397307561600919485082int);
    lemma_fundamental_div_mod_converse(7004189763854537593397307561600919485082int * 17, m, 8int, 11649716646370268997137662520560100152242int);
    assert(mod_pow(17, 2520383046345973, 13427688667394608761327070753331941386769nat) == 11649716646370268997137662520560100152242nat);
    lemma_fundamental_div_mod_converse(11649716646370268997137662520560100152242int * 11649716646370268997137662520560100152242int, m, 10107167458407394893746562463541776622648int, 5318293086466183451730370789709244682252int);
    assert(mod_pow(17, 5040766092691946, 13427688667394608761327070753331941386769nat) == 5318293086466183451730370789709244682252nat);
    lemma_fundamental_div_mod_converse(5318293086466183451730370789709244682252int * 5318293086466183451730370789709244682252int, m, 2106411762601733795175039444748995027720int, 375676419095792134029655178278047554824int);
    lemma_fundamental_div_mod_converse(375676419095792134029655178278047554824int * 17, m, 0int, 6386499124628466278504138030726808432008int);
    assert(mod_pow(17, 10081532185383893, 13427688667394608761327070753331941386769nat) == 6386499124628466278504138030726808432008nat);
    lemma_fundamental_div_mod_converse(6386499124628466278504138030726808432008int * 6386499124628466278504138030726808432008int, m, 3037557101537579118593769940735854198446int, 1729280749533995694503588527971394151090int);
    lemma_fundamental_div_mod_converse(1729280749533995694503588527971394151090int * 17, m, 2int, 2542395407288709283906863468849817794992int);
    assert(mod_pow(17, 20163064370767787, 13427688667394608761327070753331941386769nat) == 2542395407288709283906863468849817794992nat);
    lemma_fundamental_div_mod_converse(2542395407288709283906863468849817794992int * 2542395407288709283906863468849817794992int, m, 481376547156488116750001380546381400234int, 2963146293894070048347492076602959176118int);
    assert(mod_pow(17, 40326128741535574, 13427688667394608761327070753331941386769nat) == 2963146293894070048347492076602959176118nat);
    lemma_fundamental_div_mod_converse(2963146293894070048347492076602959176118int * 2963146293894070048347492076602959176118int, m, 653890343789286166213086688194251806984int, 250658414261311355465665784244262155228int);
    assert(mod_pow(17, 80652257483071148, 13427688667394608761327070753331941386769nat) == 250658414261311355465665784244262155228nat);
    lemma_fundamental_div_mod_converse(250658414261311355465665784244262155228int * 250658414261311355465665784244262155228int, m, 4679110619578141419906930986122502098int, 998384630176434667331418146101335790622int);
    assert(mod_pow(17, 161304514966142296, 13427688667394608761327070753331941386769nat) == 998384630176434667331418146101335790622nat);
    lemma_fundamental_div_mod_converse(998384630176434667331418146101335790622int * 998384630176434667331418146101335790622int, m, 74232572296147905374497317783428454305int, 5396123121302311933579228090689975056339int);
    assert(mod_pow(17, 322609029932284592, 13427688667394608761327070753331941386769nat) == 5396123121302311933579228090689975056339nat);
    lemma_fundamental_div_mod_converse(5396123121302311933579228090689975056339int * 5396123121302311933579228090689975056339int, m, 2168515033488874860795831870956246159726int, 6164820625994471890703005330027107017627int);
    assert(mod_pow(17, 645218059864569184, 13427688667394608761327070753331941386769nat) == 6164820625994471890703005330027107017627nat);
    lemma_fundamental_div_mod_converse(6164820625994471890703005330027107017627int * 6164820625994471890703005330027107017627int, m, 2830346628677162544038130592512049169902int, 7587768286693768717459369219445312884491int);
    lemma_fundamental_div_mod_converse(7587768286693768717459369219445312884491int * 17, m, 9int, 8142862867242589344865639950582846555426int);
    assert(mod_pow(17, 1290436119729138369, 13427688667394608761327070753331941386769nat) == 8142862867242589344865639950582846555426nat);
    lemma_fundamental_div_mod_converse(8142862867242589344865639950582846555426int * 8142862867242589344865639950582846555426int, m, 4938021525307205476334977493724710781953int, 7117576721906926380008831878028091861619int);
    lemma_fundamental_div_mod_converse(7117576721906926380008831878028091861619int * 17, m, 9int, 149606265866269608206505146490089166602int);
    assert(mod_pow(17, 2580872239458276739, 13427688667394608761327070753331941386769nat) == 149606265866269608206505146490089166602nat);
    lemma_fundamental_div_mod_converse(149606265866269608206505146490089166602int * 149606265866269608206505146490089166602int, m, 1666856846390657425609526657670116108int, 5483645155431456053630377809224147251352int);
    assert(mod_pow(17, 5161744478916553478, 13427688667394608761327070753331941386769nat) == 5483645155431456053630377809224147251352nat);
    lemma_fundamental_div_mod_converse(5483645155431456053630377809224147251352int * 5483645155431456053630377809224147251352int, m, 2239429654316037119017951352157351858770int, 7734841829452848619190476115863031213774int);
    assert(mod_pow(17, 10323488957833106956nat, 13427688667394608761327070753331941386769nat) == 7734841829452848619190476115863031213774nat);
    lemma_fundamental_div_mod_converse(7734841829452848619190476115863031213774int * 7734841829452848619190476115863031213774int, m, 4455552970328284264381913401967110493882int, 3356858728744269442818068955180117075818int);
    assert(mod_pow(17, 20646977915666213912nat, 13427688667394608761327070753331941386769nat) == 3356858728744269442818068955180117075818nat);
    lemma_fundamental_div_mod_converse(3356858728744269442818068955180117075818int * 3356858728744269442818068955180117075818int, m, 839198822959680222881782519897686519725int, 7436795653537489237709719103873387850599int);
    lemma_fundamental_div_mod_converse(7436795653537489237709719103873387850599int * 17, m, 9int, 5576328103585838189121587985860120979262int);
    assert(mod_pow(17, 41293955831332427825nat, 13427688667394608761327070753331941386769nat) == 5576328103585838189121587985860120979262nat);
    lemma_fundamental_div_mod_converse(5576328103585838189121587985860120979262int * 5576328103585838189121587985860120979262int, m, 2315769741843047715012566939314952825329int, 1187374514153050017714022672098945392643int);
    lemma_fundamental_div_mod_converse(1187374514153050017714022672098945392643int * 17, m, 1int, 6757678073207241539811314672350130288162int);
    assert(mod_pow(17, 82587911662664855651nat, 13427688667394608761327070753331941386769nat) == 6757678073207241539811314672350130288162nat);
    lemma_fundamental_div_mod_converse(6757678073207241539811314672350130288162int * 6757678073207241539811314672350130288162int, m, 3400898998499539161726821848720003936512int, 591956046160218036357776603472844528516int);
    lemma_fundamental_div_mod_converse(591956046160218036357776603472844528516int * 17, m, 0int, 10063252784723706618082202259038356984772int);
    assert(mod_pow(17, 165175823325329711303nat, 13427688667394608761327070753331941386769nat) == 10063252784723706618082202259038356984772nat);
    lemma_fundamental_div_mod_converse(10063252784723706618082202259038356984772int * 10063252784723706618082202259038356984772int, m, 7541808506117143818210094376531315540415int, 7723454915606544347535947240523674122849int);
    assert(mod_pow(17, 330351646650659422606nat, 13427688667394608761327070753331941386769nat) == 7723454915606544347535947240523674122849nat);
    lemma_fundamental_div_mod_converse(7723454915606544347535947240523674122849int * 7723454915606544347535947240523674122849int, m, 4442444065467091136848227500434437185013int, 1414030101813682580707706515433700583804int);
    assert(mod_pow(17, 660703293301318845212nat, 13427688667394608761327070753331941386769nat) == 1414030101813682580707706515433700583804nat);
    lemma_fundamental_div_mod_converse(1414030101813682580707706515433700583804int * 1414030101813682580707706515433700583804int, m, 148907319670763214922428846313303312510int, 3527364794236436805878067874039640930226int);
    lemma_fundamental_div_mod_converse(3527364794236436805878067874039640930226int * 17, m, 4int, 6254446832440990654618870845346130266766int);
    assert(mod_pow(17, 1321406586602637690425nat, 13427688667394608761327070753331941386769nat) == 6254446832440990654618870845346130266766nat);
    lemma_fundamental_div_mod_converse(6254446832440990654618870845346130266766int * 6254446832440990654618870845346130266766int, m, 2913241895071527327807337148114323484230int, 8887113791023496294018020213932221945886int);
    assert(mod_pow(17, 2642813173205275380850nat, 13427688667394608761327070753331941386769nat) == 8887113791023496294018020213932221945886nat);
    lemma_fundamental_div_mod_converse(8887113791023496294018020213932221945886int * 8887113791023496294018020213932221945886int, m, 5881934969670752873855134587197482148281int, 5825450671168305024525240668963882830907int);
    lemma_fundamental_div_mod_converse(5825450671168305024525240668963882830907int * 17, m, 7int, 5038840738098924087639596099062418418036int);
    assert(mod_pow(17, 5285626346410550761701nat, 13427688667394608761327070753331941386769nat) == 5038840738098924087639596099062418418036nat);
    lemma_fundamental_div_mod_converse(5038840738098924087639596099062418418036int * 5038840738098924087639596099062418418036int, m, 1890862724988376370120553325458952332571int, 12920659295311469532487115415631822944197int);
    lemma_fundamental_div_mod_converse(12920659295311469532487115415631822944197int * 17, m, 16int, 4808189341981241871047830012429927863045int);
    assert(mod_pow(17, 10571252692821101523403nat, 13427688667394608761327070753331941386769nat) == 4808189341981241871047830012429927863045nat);
    lemma_fundamental_div_mod_converse(4808189341981241871047830012429927863045int * 4808189341981241871047830012429927863045int, m, 1721717364841744951659108333077701931290int, 9189390690180070973600486228408123570015int);
    assert(mod_pow(17, 21142505385642203046806nat, 13427688667394608761327070753331941386769nat) == 9189390690180070973600486228408123570015nat);
    lemma_fundamental_div_mod_converse(9189390690180070973600486228408123570015int * 9189390690180070973600486228408123570015int, m, 6288863507970587393846388989118899813364int, 5683775719875911085304756674167168119309int);
    assert(mod_pow(17, 42285010771284406093612nat, 13427688667394608761327070753331941386769nat) == 5683775719875911085304756674167168119309nat);
    lemma_fundamental_div_mod_converse(5683775719875911085304756674167168119309int * 5683775719875911085304756674167168119309int, m, 2405872465027830461370936781237182603822int, 1993381733660046187775425660151059006363int);
    lemma_fundamental_div_mod_converse(1993381733660046187775425660151059006363int * 17, m, 2int, 7032112137431567669528094715904120334633int);
    assert(mod_pow(17, 84570021542568812187225nat, 13427688667394608761327070753331941386769nat) == 7032112137431567669528094715904120334633nat);
    lemma_fundamental_div_mod_converse(7032112137431567669528094715904120334633int * 7032112137431567669528094715904120334633int, m, 3682733666106613215874992231248961630476int, 6739277180111229487096179747413125672645int);
    lemma_fundamental_div_mod_converse(6739277180111229487096179747413125672645int * 17, m, 8int, 7146202722734031190018489679367605340813int);
    assert(mod_pow(17, 169140043085137624374451nat, 13427688667394608761327070753331941386769nat) == 7146202722734031190018489679367605340813nat);
    lemma_fundamental_div_mod_converse(7146202722734031190018489679367605340813int * 7146202722734031190018489679367605340813int, m, 3803202071434391546452406829135728914179int, 8930937503802643071291828363014036403318int);
    lemma_fundamental_div_mod_converse(8930937503802643071291828363014036403318int * 17, m, 11int, 4121362223304235837363303884587263601947int);
    assert(mod_pow(17, 338280086170275248748903nat, 13427688667394608761327070753331941386769nat) == 4121362223304235837363303884587263601947nat);
    lemma_fundamental_div_mod_converse(4121362223304235837363303884587263601947int * 4121362223304235837363303884587263601947int, m, 1264970241447739515346259885944674841245int, 10079074213658972792119916569114243703404int);
    assert(mod_pow(17, 676560172340550497497806nat, 13427688667394608761327070753331941386769nat) == 10079074213658972792119916569114243703404nat);
    lemma_fundamental_div_mod_converse(10079074213658972792119916569114243703404int * 10079074213658972792119916569114243703404int, m, 7565541585062415398049327091850264880619int, 3116553393363181684604026839812030057205int);
    assert(mod_pow(17, 1353120344681100994995612nat, 13427688667394608761327070753331941386769nat) == 3116553393363181684604026839812030057205nat);
    lemma_fundamental_div_mod_converse(3116553393363181684604026839812030057205int * 3116553393363181684604026839812030057205int, m, 723348991347158616878101920025084070774int, 7987006277324687660438053253822269222819int);
    assert(mod_pow(17, 2706240689362201989991224nat, 13427688667394608761327070753331941386769nat) == 7987006277324687660438053253822269222819nat);
    lemma_fundamental_div_mod_converse(7987006277324687660438053253822269222819int * 7987006277324687660438053253822269222819int, m, 4750800443335097025661118768302461643317int, 10265023407933947886775309589286649233988int);
    assert(mod_pow(17, 5412481378724403979982448nat, 13427688667394608761327070753331941386769nat) == 10265023407933947886775309589286649233988nat);
}

/// A Lucas–Pratt witness for 13427688667394608761327070753331941386769: generator 17, and n - 1 = 2^4 * 3 * 7 * 11 * 1853641 * 4562087 * 173171039 * 2480874801745591.
pub proof fn lemma_witness_p134276_41_digits()
    ensures
        pratt_witness(13427688667394608761327070753331941386769nat, 17, seq![2nat, 2nat, 2nat, 2nat, 3nat, 7nat, 11nat, 1853641nat, 4562087nat, 173171039nat, 2480874801745591nat]),
{
    lemma_prime_3();
    lemma_prime_7();
    lemma_prime_11();
    lemma_prime_1853641();
    lemma_prime_4562087();
    lemma_prime_173171039();
    lemma_prime_2480874801745591();
    lemma_pow_p134276_41_digits_full();
    lemma_pow_p134276_41_digits_by_2();
    lemma_pow_p134276_41_digits_by_3();
    lemma_pow_p134276_41_digits_by_7();
    lemma_pow_p134276_41_digits_by_11();
    lemma_pow_p134276_41_digits_by_1853641();
    lemma_pow_p134276_41_digits_by_4562087();
    lemma_pow_p134276_41_digits_by_173171039();
    lemma_pow_p134276_41_digits_by_2480874801745591();
    let fs = seq![2nat, 2nat, 2nat, 2nat, 3nat, 7nat, 11nat, 1853641nat, 4562087nat, 173171039nat, 2480874801745591nat];
    assert(product(fs) == 13427688667394608761327070753331941386768nat) by {
        assert(product(Seq::<nat>::empty()) == 1);
        assert(seq![2480874801745591nat].len() == 1 && seq![2480874801745591nat][0] == 2480874801745591nat);
        assert(seq![2480874801745591nat].drop_first() =~= Seq::<nat>::empty());
        assert(product(seq![2480874801745591nat].drop_first()) == 1nat);
        assert(product(seq![2480874801745591nat]) == seq![2480874801745591nat][0] * product(seq![2480874801745591nat].drop_first()));
        assert(product(seq![2480874801745591nat]) == 2480874801745591nat);
        assert(seq![173171039nat, 2480874801745591nat].len() == 2 && seq![173171039nat, 2480874801745591nat][0] == 173171039nat);
        assert(seq![173171039nat, 2480874801745591nat].drop_first() =~= seq![2480874801745591nat]);
        assert(product(seq![173171039nat, 2480874801745591nat].drop_first()) == 2480874801745591nat);
        assert(product(seq![173171039nat, 2480874801745591nat]) == seq![173171039nat, 2480874801745591nat][0] * product(seq![173171039nat, 2480874801745591nat].drop_first()));
        assert(product(seq![173171039nat, 2480874801745591nat]) == 429615667047203007139049nat);
        assert(seq![4562087nat, 173171039nat, 2480874801745591nat].len() == 3 && seq![4562087nat, 173171039nat, 2480874801745591nat][0] == 4562087nat);
        assert(seq![4562087nat, 173171039nat, 2480874801745591nat].drop_first() =~= seq![173171039nat, 2480874801745591nat]);
        assert(product(seq![4562087nat, 173171039nat, 2480874801745591nat].drop_first()) == 429615667047203007139049nat);
        assert(product(seq![4562087nat, 173171039nat, 2480874801745591nat]) == seq![4562087nat, 173171039nat, 2480874801745591nat][0] * product(seq![4562087nat, 173171039nat, 2480874801745591nat].drop_first()));
        assert(product(seq![4562087nat, 173171039nat, 2480874801745591nat]) == 1959944049632373225229962635263nat);
        assert(seq![1853641nat, 4562087nat, 173171039nat, 2480874801745591nat].len() == 4 && seq![1853641nat, 4562087nat, 173171039nat, 2480874801745591nat][0] == 1853641nat);
        assert(seq![1853641nat, 4562087nat, 173171039nat, 2480874801745591nat].drop_first() =~= seq![4562087nat, 173171039nat, 2480874801745591nat]);
        assert(product(seq![1853641nat, 4562087nat, 173171039nat, 2480874801745591nat].drop_first()) == 1959944049632373225229962635263nat);
        assert(product(seq![1853641nat, 4562087nat, 173171039nat, 2480874801745591nat]) == seq![1853641nat, 4562087nat, 173171039nat, 2480874801745591nat][0] * product(seq![1853641nat, 4562087nat, 173171039nat, 2480874801745591nat].drop_first()));
        assert(product(seq![1853641nat, 4562087nat, 173171039nat, 2480874801745591nat]) == 3633032648104601937588493169191542583nat);
        assert(seq![11nat, 1853641nat, 4562087nat, 173171039nat, 2480874801745591nat].len() == 5 && seq![11nat, 1853641nat, 4562087nat, 173171039nat, 2480874801745591nat][0] == 11nat);
        assert(seq![11nat, 1853641nat, 4562087nat, 173171039nat, 2480874801745591nat].drop_first() =~= seq![1853641nat, 4562087nat, 173171039nat, 2480874801745591nat]);
        assert(product(seq![11nat, 1853641nat, 4562087nat, 173171039nat, 2480874801745591nat].drop_first()) == 3633032648104601937588493169191542583nat);
        assert(product(seq![11nat, 1853641nat, 4562087nat, 173171039nat, 2480874801745591nat]) == seq![11nat, 1853641nat, 4562087nat, 173171039nat, 2480874801745591nat][0] * product(seq![11nat, 1853641nat, 4562087nat, 173171039nat, 2480874801745591nat].drop_first()));
        assert(product(seq![11nat, 1853641nat, 4562087nat, 173171039nat, 2480874801745591nat]) == 39963359129150621313473424861106968413nat);
        assert(seq![7nat, 11nat, 1853641nat, 4562087nat, 173171039nat, 2480874801745591nat].len() == 6 && seq![7nat, 11nat, 1853641nat, 4562087nat, 173171039nat, 2480874801745591nat][0] == 7nat);
        assert(seq![7nat, 11nat, 1853641nat, 4562087nat, 173171039nat, 2480874801745591nat].drop_first() =~= seq![11nat, 1853641nat, 4562087nat, 173171039nat, 2480874801745591nat]);
        assert(product(seq![7nat, 11nat, 1853641nat, 4562087nat, 173171039nat, 2480874801745591nat].drop_first()) == 39963359129150621313473424861106968413nat);
        assert(product(seq![7nat, 11nat, 1853641nat, 4562087nat, 173171039nat, 2480874801745591nat]) == seq![7nat, 11nat, 1853641nat, 4562087nat, 173171039nat, 2480874801745591nat][0] * product(seq![7nat, 11nat, 1853641nat, 4562087nat, 173171039nat, 2480874801745591nat].drop_first()));
        assert(product(seq![7nat, 11nat, 1853641nat, 4562087nat, 173171039nat, 2480874801745591nat]) == 279743513904054349194313974027748778891nat);
        assert(seq![3nat, 7nat, 11nat, 1853641nat, 4562087nat, 173171039nat, 2480874801745591nat].len() == 7 && seq![3nat, 7nat, 11nat, 1853641nat, 4562087nat, 173171039nat, 2480874801745591nat][0] == 3nat);
        assert(seq![3nat, 7nat, 11nat, 1853641nat, 4562087nat, 173171039nat, 2480874801745591nat].drop_first() =~= seq![7nat, 11nat, 1853641nat, 4562087nat, 173171039nat, 2480874801745591nat]);
        assert(product(seq![3nat, 7nat, 11nat, 1853641nat, 4562087nat, 173171039nat, 2480874801745591nat].drop_first()) == 279743513904054349194313974027748778891nat);
        assert(product(seq![3nat, 7nat, 11nat, 1853641nat, 4562087nat, 173171039nat, 2480874801745591nat]) == seq![3nat, 7nat, 11nat, 1853641nat, 4562087nat, 173171039nat, 2480874801745591nat][0] * product(seq![3nat, 7nat, 11nat, 1853641nat, 4562087nat, 173171039nat, 2480874801745591nat].drop_first()));
        assert(product(seq![3nat, 7nat, 11nat, 1853641nat, 4562087nat, 173171039nat, 2480874801745591nat]) == 839230541712163047582941922083246336673nat);
        assert(seq![2nat, 3nat, 7nat, 11nat, 1853641nat, 4562087nat, 173171039nat, 2480874801745591nat].len() == 8 && seq![2nat, 3nat, 7nat, 11nat, 1853641nat, 4562087nat, 173171039nat, 2480874801745591nat][0] == 2nat);
        assert(seq![2nat, 3nat, 7nat, 11nat, 1853641nat, 4562087nat, 173171039nat, 2480874801745591nat].drop_first() =~= seq![3nat, 7nat, 11nat, 1853641nat, 4562087nat, 173171039nat, 2480874801745591nat]);
        assert(product(seq![2nat, 3nat, 7nat, 11nat, 1853641nat, 4562087nat, 173171039nat, 2480874801745591nat].drop_first()) == 839230541712163047582941922083246336673nat);
        assert(product(seq![2nat, 3nat, 7nat, 11nat, 1853641nat, 4562087nat, 173171039nat, 2480874801745591nat]) == seq![2nat, 3nat, 7nat, 11nat, 1853641nat, 4562087nat, 173171039nat, 2480874801745591nat][0] * product(seq![2nat, 3nat, 7nat, 11nat, 1853641nat, 4562087nat, 173171039nat, 2480874801745591nat].drop_first()));
        assert(product(seq![2nat, 3nat, 7nat, 11nat, 1853641nat, 4562087nat, 173171039nat, 2480874801745591nat]) == 1678461083424326095165883844166492673346nat);
        assert(seq![2nat, 2nat, 3nat, 7nat, 11nat, 1853641nat, 4562087nat, 173171039nat, 2480874801745591nat].len() == 9 && seq![2nat, 2nat, 3nat, 7nat, 11nat, 1853641nat, 4562087nat, 173171039nat, 2480874801745591nat][0] == 2nat);
        assert(seq![2nat, 2nat, 3nat, 7nat, 11nat, 1853641nat, 4562087nat, 173171039nat, 2480874801745591nat].drop_first() =~= seq![2nat, 3nat, 7nat, 11nat, 1853641nat, 4562087nat, 173171039nat, 2480874801745591nat]);
        assert(product(seq![2nat, 2nat, 3nat, 7nat, 11nat, 1853641nat, 4562087nat, 173171039nat, 2480874801745591nat].drop_first()) == 1678461083424326095165883844166492673346nat);
        assert(product(seq![2nat, 2nat, 3nat, 7nat, 11nat, 1853641nat, 4562087nat, 173171039nat, 2480874801745591nat]) == seq![2nat, 2nat, 3nat, 7nat, 11nat, 1853641nat, 4562087nat, 173171039nat, 2480874801745591nat][0] * product(seq![2nat, 2nat, 3nat, 7nat, 11nat, 1853641nat, 4562087nat, 173171039nat, 2480874801745591nat].drop_first()));
        assert(product(seq![2nat, 2nat, 3nat, 7nat, 11nat, 1853641nat, 4562087nat, 173171039nat, 2480874801745591nat]) == 3356922166848652190331767688332985346692nat);
        assert(seq![2nat, 2nat, 2nat, 3nat, 7nat, 11nat, 1853641nat, 4562087nat, 173171039nat, 2480874801745591nat].len() == 10 && seq![2nat, 2nat, 2nat, 3nat, 7nat, 11nat, 1853641nat, 4562087nat, 173171039nat, 2480874801745591nat][0] == 2nat);
        assert(seq![2nat, 2nat, 2nat, 3nat, 7nat, 11nat, 1853641nat, 4562087nat, 173171039nat, 2480874801745591nat].drop_first() =~= seq![2nat, 2nat, 3nat, 7nat, 11nat, 1853641nat, 4562087nat, 173171039nat, 2480874801745591nat]);
        assert(product(seq![2nat, 2nat, 2nat, 3nat, 7nat, 11nat, 1853641nat, 4562087nat, 173171039nat, 2480874801745591nat].drop_first()) == 3356922166848652190331767688332985346692nat);
        assert(product(seq![2nat, 2nat, 2nat, 3nat, 7nat, 11nat, 1853641nat, 4562087nat, 173171039nat, 2480874801745591nat]) == seq![2nat, 2nat, 2nat, 3nat, 7nat, 11nat, 1853641nat, 4562087nat, 173171039nat, 2480874801745591nat][0] * product(seq![2nat, 2nat, 2nat, 3nat, 7nat, 11nat, 1853641nat, 4562087nat, 173171039nat, 2480874801745591nat].drop_first()));
        assert(product(seq![2nat, 2nat, 2nat, 3nat, 7nat, 11nat, 1853641nat, 4562087nat, 173171039nat, 2480874801745591nat]) == 6713844333697304380663535376665970693384nat);
        assert(seq![2nat, 2nat, 2nat, 2nat, 3nat, 7nat, 11nat, 1853641nat, 4562087nat, 173171039nat, 2480874801745591nat].len() == 11 && seq![2nat, 2nat, 2nat, 2nat, 3nat, 7nat, 11nat, 1853641nat, 4562087nat, 173171039nat, 2480874801745591nat][0] == 2nat);
        assert(seq![2nat, 2nat, 2nat, 2nat, 3nat, 7nat, 11nat, 1853641nat, 4562087nat, 173171039nat, 2480874801745591nat].drop_first() =~= seq![2nat, 2nat, 2nat, 3nat, 7nat, 11nat, 1853641nat, 4562087nat, 173171039nat, 2480874801745591nat]);
        assert(product(seq![2nat, 2nat, 2nat, 2nat, 3nat, 7nat, 11nat, 1853641nat, 4562087nat, 173171039nat, 2480874801745591nat].drop_first()) == 6713844333697304380663535376665970693384nat);
        assert(product(seq![2nat, 2nat, 2nat, 2nat, 3nat, 7nat, 11nat, 1853641nat, 4562087nat, 173171039nat, 2480874801745591nat]) == seq![2nat, 2nat, 2nat, 2nat, 3nat, 7nat, 11nat, 1853641nat, 4562087nat, 173171039nat, 2480874801745591nat][0] * product(seq![2nat, 2nat, 2nat, 2nat, 3nat, 7nat, 11nat, 1853641nat, 4562087nat, 173171039nat, 2480874801745591nat].drop_first()));
        assert(product(seq![2nat, 2nat, 2nat, 2nat, 3nat, 7nat, 11nat, 1853641nat, 4562087nat, 173171039nat, 2480874801745591nat]) == 13427688667394608761327070753331941386768nat);
    }
    assert forall|i: int| 0 <= i < fs.len() implies mod_pow(17, ((13427688667394608761327070753331941386768nat) / fs[i]) as nat, 13427688667394608761327070753331941386769nat) != 1 && is_prime(#[trigger] fs[i]) by {
        if i == 0 {
            assert(fs[i] == 2);
            lemma_fundamental_div_mod_converse(13427688667394608761327070753331941386768int, 2int, 6713844333697304380663535376665970693384int, 0int);
        } else if i == 1 {
            assert(fs[i] == 2);
            lemma_fundamental_div_mod_converse(13427688667394608761327070753331941386768int, 2int, 6713844333697304380663535376665970693384int, 0int);
        } else if i == 2 {
            assert(fs[i] == 2);
            lemma_fundamental_div_mod_converse(13427688667394608761327070753331941386768int, 2int, 6713844333697304380663535376665970693384int, 0int);
        } else if i == 3 {
            assert(fs[i] == 2);
            lemma_fundamental_div_mod_converse(13427688667394608761327070753331941386768int, 2int, 6713844333697304380663535376665970693384int, 0int);
        } else if i == 4 {
            assert(fs[i] == 3);
            lemma_fundamental_div_mod_converse(13427688667394608761327070753331941386768int, 3int, 4475896222464869587109023584443980462256int, 0int);
        } else if i == 5 {
            assert(fs[i] == 7);
            lemma_fundamental_div_mod_converse(13427688667394608761327070753331941386768int, 7int, 1918241238199229823046724393333134483824int, 0int);
        } else if i == 6 {
            assert(fs[i] == 11);
            lemma_fundamental_div_mod_converse(13427688667394608761327070753331941386768int, 11int, 1220698969763146251029733704848358307888int, 0int);
        } else if i == 7 {
            assert(fs[i] == 1853641);
            lemma_fundamental_div_mod_converse(13427688667394608761327070753331941386768int, 1853641int, 7243953207441251440449941899932048int, 0int);
        } else if i == 8 {
            assert(fs[i] == 4562087);
            lemma_fundamental_div_mod_converse(13427688667394608761327070753331941386768int, 4562087int, 2943321481461140210900640595703664int, 0int);
        } else if i == 9 {
            assert(fs[i] == 173171039);
            lemma_fundamental_div_mod_converse(13427688667394608761327070753331941386768int, 173171039int, 77540036399473290457806115913712int, 0int);
        } else if i == 10 {
            assert(fs[i] == 2480874801745591);
            lemma_fundamental_div_mod_converse(13427688667394608761327070753331941386768int, 2480874801745591int, 5412481378724403979982448int, 0int);
        }
    }
}

/// 13427688667394608761327070753331941386769 is prime.
pub proof fn lemma_prime_p134276_41_digits()
    ensures
        is_prime(13427688667394608761327070753331941386769nat),
{
    lemma_witness_p134276_41_digits();
    lemma_pratt_prime(13427688667394608761327070753331941386769nat, 17, seq![2nat, 2nat, 2nat, 2nat, 3nat, 7nat, 11nat, 1853641nat, 4562087nat, 173171039nat, 2480874801745591nat]);
}

#[verifier::rlimit(100)]
pub proof fn lemma_pow_base_modulus_full()
    ensures
        mod_pow(3, 21888242871839275222246405745257275088696311157297823662689037894645226208582nat, 21888242871839275222246405745257275088696311157297823662689037894645226208583nat) == 1,
{
    let m = 21888242871839275222246405745257275088696311157297823662689037894645226208583int;
    lemma_fundamental_div_mod_converse(1, m, 0, 1);
    assert(mod_pow(3, 0, 21888242871839275222246405745257275088696311157297823662689037894645226208583nat) == 1);
    lemma_fundamental_div_mod_converse(1int * 1int, m, 0int, 1int);
    lemma_fundamental_div_mod_converse(1int * 3, m, 0int, 3int);
    assert(mod_pow(3, 1, 21888242871839275222246405745257275088696311157297823662689037894645226208583nat) == 3);
    lemma_fundamental_div_mod_converse(3int * 3int, m, 0int, 9int);
    lemma_fundamental_div_mod_converse(9int * 3, m, 0int, 27int);
    assert(mod_pow(3, 3, 21888242871839275222246405745257275088696311157297823662689037894645226208583nat) == 27);
    lemma_fundamental_div_mod_converse(27int * 27int, m, 0int, 729int);
    assert(mod_pow(3, 6, 21888242871839275222246405745257275088696311157297823662689037894645226208583nat) == 729);
    lemma_fundamental_div_mod_converse(729int * 729int, m, 0int, 531441int);
    assert(mod_pow(3, 12, 21888242871839275222246405745257275088696311157297823662689037894645226208583nat) == 531441);
    lemma_fundamental_div_mod_converse(531441int * 531441int, m, 0int, 282429536481int);
    assert(mod_pow(3, 24, 21888242871839275222246405745257275088696311157297823662689037894645226208583nat) == 282429536481);
    lemma_fundamental_div_mod_converse(282429536481int * 282429536481int, m, 0int, 79766443076872509863361int);
    assert(mod_pow(3, 48, 21888242871839275222246405745257275088696311157297823662689037894645226208583nat) == 79766443076872509863361nat);
    lemma_fundamental_div_mod_converse(79766443076872509863361int * 79766443076872509863361int, m, 0int, 6362685441135942358474828762538534230890216321int);
    assert(mod_pow(3, 96, 21888242871839275222246405745257275088696311157297823662689037894645226208583nat) == 6362685441135942358474828762538534230890216321nat);
    lemma_fundamental_div_mod_converse(6362685441135942358474828762538534230890216321int * 6362685441135942358474828762538534230890216321int, m, 1849566740459026int, 2761922516890432007361501793849997429896015701843940833222919981823133754883int);
    lemma_fundamental_div_mod_converse(2761922516890432007361501793849997429896015701843940833222919981823133754883int * 3, m, 0int, 8285767550671296022084505381549992289688047105531822499668759945469401264649int);
    assert(mod_pow(3, 193, 21888242871839275222246405745257275088696311157297823662689037894645226208583nat) == 8285767550671296022084505381549992289688047105531822499668759945469401264649nat);
    lemma_fundamental_div_mod_converse(8285767550671296022084505381549992289688047105531822499668759945469401264649int * 8285767550671296022084505381549992289688047105531822499668759945469401264649int, m, 3136567165566561434192281430863412931318817755319138550781983270268737924348int, 18603043702591589390385410088301215858442106781483037674018514312555414814317int);
    lemma_fundamental_div_mod_converse(18603043702591589390385410088301215858442106781483037674018514312555414814317int * 3, m, 2int, 12032645364096217726663418774389097397933698029853465696677467148375792025785int);
    assert(mod_pow(3, 387, 21888242871839275222246405745257275088696311157297823662689037894645226208583nat) == 12032645364096217726663418774389097397933698029853465696677467148375792025785nat);
    lemma_fundamental_div_mod_converse(12032645364096217726663418774389097397933698029853465696677467148375792025785int * 12032645364096217726663418774389097397933698029853465696677467148375792025785int, m, 6614718015779213304790146066325756887916539292568651009981558566714037074646int, 10720926162174915799133957941839790476087088477684948206570027040058967979607int);
    assert(mod_pow(3, 774, 21888242871839275222246405745257275088696311157297823662689037894645226208583nat) == 10720926162174915799133957941839790476087088477684948206570027040058967979607nat);
    lemma_fundamental_div_mod_converse(10720926162174915799133957941839790476087088477684948206570027040058967979607int * 10720926162174915799133957941839790476087088477684948206570027040058967979607int, m, 5251141375202964145393350171728876023445322767868516593038976869801160674503int, 653705856699061519562630644377102924487433399565900283391621394561920015200int);
    assert(mod_pow(3, 1548, 21888242871839275222246405745257275088696311157297823662689037894645226208583nat) == 653705856699061519562630644377102924487433399565900283391621394561920015200nat);
    lemma_fundamental_div_mod_converse(653705856699061519562630644377102924487433399565900283391621394561920015200int * 653705856699061519562630644377102924487433399565900283391621394561920015200int, m, 19523328098320995144657702883942151387390549417356662082565548524685489044int, 3678337777561861888972588092047543937707089433572497562608120467990925775348int);
    lemma_fundamental_div_mod_converse(3678337777561861888972588092047543937707089433572497562608120467990925775348int * 3, m, 0int, 11035013332685585666917764276142631813121268300717492687824361403972777326044int);
    assert(mod_pow(3, 3097, 21888242871839275222246405745257275088696311157297823662689037894645226208583nat) == 11035013332685585666917764276142631813121268300717492687824361403972777326044nat);
    lemma_fundamental_div_mod_converse(11035013332685585666917764276142631813121268300717492687824361403972777326044int * 11035013332685585666917764276142631813121268300717492687824361403972777326044int, m, 5563330047347749530181253373568043955882891119518715358240783492372334241263int, 6668933299697619710003086423277124683035548477328100854015942755561197329607int);
    assert(mod_pow(3, 6194, 21888242871839275222246405745257275088696311157297823662689037894645226208583nat) == 6668933299697619710003086423277124683035548477328100854015942755561197329607nat);
    lemma_fundamental_div_mod_converse(6668933299697619710003086423277124683035548477328100854015942755561197329607int * 6668933299697619710003086423277124683035548477328100854015942755561197329607int, m, 2031897746028553769023243984658149690394124114342284455369376416748077376135int, 2924210066484398764618150207140168490436410784917964781657369979722942407744int);
    assert(mod_pow(3, 12388, 21888242871839275222246405745257275088696311157297823662689037894645226208583nat) == 2924210066484398764618150207140168490436410784917964781657369979722942407744nat);
    lemma_fundamental_div_mod_converse(2924210066484398764618150207140168490436410784917964781657369979722942407744int * 2924210066484398764618150207140168490436410784917964781657369979722942407744int, m, 390666558434900467734702685724686773713473426211165378751105793224126444685int, 4125388266795915217526829947128526978978935773561165958221388810401929438181int);
    assert(mod_pow(3, 24776, 21888242871839275222246405745257275088696311157297823662689037894645226208583nat) == 4125388266795915217526829947128526978978935773561165958221388810401929438181nat);
    lemma_fundamental_div_mod_converse(4125388266795915217526829947128526978978935773561165958221388810401929438181int * 4125388266795915217526829947128526978978935773561165958221388810401929438181int, m, 777532872394855165831207316457244130854678672873116453350535085143481912084int, 571910321924607321406835774659625359948200508870808804367146711295648371789int);
    lemma_fundamental_div_mod_converse(571910321924607321406835774659625359948200508870808804367146711295648371789int * 3, m, 0int, 1715730965773821964220507323978876079844601526612426413101440133886945115367int);
    assert(mod_pow(3, 49553, 21888242871839275222246405745257275088696311157297823662689037894645226208583nat) == 1715730965773821964220507323978876079844601526612426413101440133886945115367nat);
    lemma_fundamental_div_mod_converse(1715730965773821964220507323978876079844601526612426413101440133886945115367int * 1715730965773821964220507323978876079844601526612426413101440133886945115367int, m, 134489221640650094970206286608683405143005797004468363264303814777223479586int, 19583572409628956779026665223435416673499611377620110436708458894419461058051int);
    assert(mod_pow(3, 99106, 21888242871839275222246405745257275088696311157297823662689037894645226208583nat) == 19583572409628956779026665223435416673499611377620110436708458894419461058051nat);
    lemma_fundamental_div_mod_converse(19583572409628956779026665223435416673499611377620110436708458894419461058051int * 19583572409628956779026665223435416673499611377620110436708458894419461058051int, m, 17521566741047109048642019011048228275188005698743578123864498303079612689751int, 2821547709732768266239841725367802956709392310885588798509937403131999585768int);
    assert(mod_pow(3, 198212, 21888242871839275222246405745257275088696311157297823662689037894645226208583nat) == 2821547709732768266239841725367802956709392310885588798509937403131999585768nat);
    lemma_fundamental_div_mod_converse(2821547709732768266239841725367802956709392310885588798509937403131999585768int * 2821547709732768266239841725367802956709392310885588798509937403131999585768int, m, 363717248794820860994898987529718014601883018189712143965951338684754415732int, 8883652848868344148952897563767129560194885697467908261228073715697859522068int);
    lemma_fundamental_div_mod_converse(8883652848868344148952897563767129560194885697467908261228073715697859522068int * 3, m, 1int, 4762715674765757224612286946044113591888345935105901120995183252448352357621int);
    assert(mod_pow(3, 396425, 21888242871839275222246405745257275088696311157297823662689037894645226208583nat) == 4762715674765757224612286946044113591888345935105901120995183252448352357621nat);
    lemma_fundamental_div_mod_converse(4762715674765757224612286946044113591888345935105901120995183252448352357621int * 4762715674765757224612286946044113591888345935105901120995183252448352357621int, m, 1036330816113305698016413684234453729054792196380861639579231074862079576203int, 17109166418141596987280894953057368737579223755168404942244282494007955629292int);
    lemma_fundamental_div_mod_converse(17109166418141596987280894953057368737579223755168404942244282494007955629292int * 3, m, 2int, 7551013510746240517349873368657556035345048950909567501354771692733414470710int);
    assert(mod_pow(3, 792851, 21888242871839275222246405745257275088696311157297823662689037894645226208583nat) == 7551013510746240517349873368657556035345048950909567501354771692733414470710nat);
    lemma_fundamental_div_mod_converse(7551013510746240517349873368657556035345048950909567501354771692733414470710int * 7551013510746240517349873368657556035345048950909567501354771692733414470710int, m, 2604951223052700087171142573253673222992444300546451548970745299377868382698int, 12255375975749110201802936845444661585188039821233755179271825246208831607166int);
    lemma_fundamental_div_mod_converse(12255375975749110201802936845444661585188039821233755179271825246208831607166int * 3, m, 1int, 14877885055408055383162404791076709666867808306403441875126437843981268612915int);
    assert(mod_pow(3, 1585703, 21888242871839275222246405745257275088696311157297823662689037894645226208583nat) == 14877885055408055383162404791076709666867808306403441875126437843981268612915nat);
    lemma_fundamental_div_mod_converse(14877885055408055383162404791076709666867808306403441875126437843981268612915int * 14877885055408055383162404791076709666867808306403441875126437843981268612915int, m, 10112801882636188478498705773919177795272747312110419512305185521129486854359int, 20716970516021300426857017460276015645329027075114320559021256593731428033928int);
    assert(mod_pow(3, 3171406, 21888242871839275222246405745257275088696311157297823662689037894645226208583nat) == 20716970516021300426857017460276015645329027075114320559021256593731428033928nat);
    lemma_fundamental_div_mod_converse(20716970516021300426857017460276015645329027075114320559021256593731428033928int * 20716970516021300426857017460276015645329027075114320559021256593731428033928int, m, 19608374682002542545125712150488481201984535787805674777544713457032112530407int, 4465215126731577662207498208133157365398891936010028698363252892264607225903int);
    assert(mod_pow(3, 6342812, 21888242871839275222246405745257275088696311157297823662689037894645226208583nat) == 4465215126731577662207498208133157365398891936010028698363252892264607225903nat);
    lemma_fundamental_div_mod_converse(4465215126731577662207498208133157365398891936010028698363252892264607225903int * 4465215126731577662207498208133157365398891936010028698363252892264607225903int, m, 910906656360446859386360314639170037362586955296927357522572959894329974744int, 680014379036013699969636768749552049410481515580417146447511892880008137657int);
    lemma_fundamental_div_mod_converse(680014379036013699969636768749552049410481515580417146447511892880008137657int * 3, m, 0int, 2040043137108041099908910306248656148231444546741251439342535678640024412971int);
    assert(mod_pow(3, 12685625, 21888242871839275222246405745257275088696311157297823662689037894645226208583nat) == 2040043137108041099908910306248656148231444546741251439342535678640024412971nat);
    lemma_fundamental_div_mod_converse(2040043137108041099908910306248656148231444546741251439342535678640024412971int * 2040043137108041099908910306248656148231444546741251439342535678640024412971int, m, 190137510152357998142727296242940066738180459989911175557221265924290111954int, 2170494657165010956234972507130061560274723222406649901820500937037127345659int);
    lemma_fundamental_div_mod_converse(2170494657165010956234972507130061560274723222406649901820500937037127345659int * 3, m, 0int, 6511483971495032868704917521390184680824169667219949705461502811111382036977int);
    assert(mod_pow(3, 25371251, 21888242871839275222246405745257275088696311157297823662689037894645226208583nat) == 6511483971495032868704917521390184680824169667219949705461502811111382036977nat);
    lemma_fundamental_div_mod_converse(6511483971495032868704917521390184680824169667219949705461502811111382036977int * 6511483971495032868704917521390184680824169667219949705461502811111382036977int, m, 1937086670652146802679881630897267588003219652083737549790746307341312610316int, 6102347411660706776919057552928001875781188047150148598366733874386181756301int);
    lemma_fundamental_div_mod_converse(6102347411660706776919057552928001875781188047150148598366733874386181756301int * 3, m, 0int, 18307042234982120330757172658784005627343564141450445795100201623158545268903int);
    assert(mod_pow(3, 50742503, 21888242871839275222246405745257275088696311157297823662689037894645226208583nat) == 18307042234982120330757172658784005627343564141450445795100201623158545268903nat);
    lemma_fundamental_div_mod_converse(18307042234982120330757172658784005627343564141450445795100201623158545268903int * 18307042234982120330757172658784005627343564141450445795100201623158545268903int, m, 15311772505257137789035075316682306441750551066869164849298784248078489078237int, 1161252620224752131198444720694685948169763521015709717810937601490610915238int);
    assert(mod_pow(3, 101485006, 21888242871839275222246405745257275088696311157297823662689037894645226208583nat) == 1161252620224752131198444720694685948169763521015709717810937601490610915238nat);
    lemma_fundamental_div_mod_converse(1161252620224752131198444720694685948169763521015709717810937601490610915238int * 1161252620224752131198444720694685948169763521015709717810937601490610915238int, m, 61608766673262746213523560517275655480572598323446553237010129969915988112int, 8044012535326186770422519615466388313535171112987799882860729238128160231348int);
    assert(mod_pow(3, 202970012, 21888242871839275222246405745257275088696311157297823662689037894645226208583nat) == 8044012535326186770422519615466388313535171112987799882860729238128160231348nat);
    lemma_fundamental_div_mod_converse(8044012535326186770422519615466388313535171112987799882860729238128160231348int * 8044012535326186770422519615466388313535171112987799882860729238128160231348int, m, 2956205212421765866767504547278336996473601576916114222444387963958606481247int, 16991940699206253696817722091603681759404194695319854350446664882080381954103int);
    lemma_fundamental_div_mod_converse(16991940699206253696817722091603681759404194695319854350446664882080381954103int * 3, m, 2int, 7199336353940210645960354784296495100819961771363915725961918856950693445143int);
    assert(mod_pow(3, 405940025, 21888242871839275222246405745257275088696311157297823662689037894645226208583nat) == 7199336353940210645960354784296495100819961771363915725961918856950693445143nat);
    lemma_fundamental_div_mod_converse(7199336353940210645960354784296495100819961771363915725961918856950693445143int * 7199336353940210645960354784296495100819961771363915725961918856950693445143int, m, 2367958188359127940935514404225558558214861668648965922145731680283973913673int, 2637823550896316422185925106304998154841836042077540550884513696160416635090int);
    assert(mod_pow(3, 811880050, 21888242871839275222246405745257275088696311157297823662689037894645226208583nat) == 2637823550896316422185925106304998154841836042077540550884513696160416635090nat);
    lemma_fundamental_div_mod_converse(2637823550896316422185925106304998154841836042077540550884513696160416635090int * 2637823550896316422185925106304998154841836042077540550884513696160416635090int, m, 317892721055984857546501326830315372430377504887410558193500858623836183364int, 9179822483718155549514557027011851069159586852771610996870567094755320694888int);
    lemma_fundamental_div_mod_converse(9179822483718155549514557027011851069159586852771610996870567094755320694888int * 3, m, 1int, 5651224579315191426297265335778278118782449401017009327922663389620735876081int);
    assert(mod_pow(3, 1623760101, 21888242871839275222246405745257275088696311157297823662689037894645226208583nat) == 5651224579315191426297265335778278118782449401017009327922663389620735876081nat);
    lemma_fundamental_div_mod_converse(5651224579315191426297265335778278118782449401017009327922663389620735876081int * 5651224579315191426297265335778278118782449401017009327922663389620735876081int, m, 1459063636713591652374316467352903182936613754001577463465598022208840879061int, 7881684199080873353922476392626699313477713521535170163018055918376724737998int);
    lemma_fundamental_div_mod_converse(7881684199080873353922476392626699313477713521535170163018055918376724737998int * 3, m, 1int, 1756809725403344839521023432622822851736829407307686826365129860484948005411int);
    assert(mod_pow(3, 3247520203, 21888242871839275222246405745257275088696311157297823662689037894645226208583nat) == 1756809725403344839521023432622822851736829407307686826365129860484948005411nat);
    lemma_fundamental_div_mod_converse(1756809725403344839521023432622822851736829407307686826365129860484948005411int * 1756809725403344839521023432622822851736829407307686826365129860484948005411int, m, 141006312354228116341593510906300771739412747793656648766650565791391212709int, 3527384038925210195244401278427298375321968146820813302463366948976730797574int);
    lemma_fundamental_div_mod_converse(3527384038925210195244401278427298375321968146820813302463366948976730797574int * 3, m, 0int, 10582152116775630585733203835281895125965904440462439907390100846930192392722int);
    assert(mod_pow(3, 6495040407, 21888242871839275222246405745257275088696311157297823662689037894645226208583nat) == 10582152116775630585733203835281895125965904440462439907390100846930192392722nat);
    lemma_fundamental_div_mod_converse(10582152116775630585733203835281895125965904440462439907390100846930192392722int * 10582152116775630585733203835281895125965904440462439907390100846930192392722int, m, 5116077342446314186646529208601324740553117588292200666916196484360062894151int, 17167412223861677053247147616459908008652566569799333806423576891407701871251int);
    assert(mod_pow(3, 12990080814, 21888242871839275222246405745257275088696311157297823662689037894645226208583nat) == 17167412223861677053247147616459908008652566569799333806423576891407701871251nat);
    lemma_fundamental_div_mod_converse(17167412223861677053247147616459908008652566569799333806423576891407701871251int * 17167412223861677053247147616459908008652566569799333806423576891407701871251int, m, 13464764814135577242254672452216071681626456287940837818514698101750937414345int, 8726091675795004014072034383719206010804209726337529389273846049621313981866int);
    assert(mod_pow(3, 25980161628, 21888242871839275222246405745257275088696311157297823662689037894645226208583nat) == 8726091675795004014072034383719206010804209726337529389273846049621313981866nat);
    lemma_fundamental_div_mod_converse(8726091675795004014072034383719206010804209726337529389273846049621313981866int * 8726091675795004014072034383719206010804209726337529389273846049621313981866int, m, 3478793449991557172780977719698920890415892342870340783638208675833070338696int, 14684171908361036228633735226317062581451336115366268216447139061408424614188int);
    assert(mod_pow(3, 51960323256, 21888242871839275222246405745257275088696311157297823662689037894645226208583nat) == 14684171908361036228633735226317062581451336115366268216447139061408424614188nat);
    lemma_fundamental_div_mod_converse(14684171908361036228633735226317062581451336115366268216447139061408424614188int * 14684171908361036228633735226317062581451336115366268216447139061408424614188int, m, 9851174710406545073291518044777046422338329777990793366008542939455370345842int, 1532302758983705752826256643750561364860023895811423031463796476853512137458int);
    assert(mod_pow(3, 103920646512, 21888242871839275222246405745257275088696311157297823662689037894645226208583nat) == 1532302758983705752826256643750561364860023895811423031463796476853512137458nat);
    lemma_fundamental_div_mod_converse(1532302758983705752826256643750561364860023895811423031463796476853512137458int * 1532302758983705752826256643750561364860023895811423031463796476853512137458int, m, 107269996908243260633930243293608539600757000180042574534585127268377763487int, 13982452012096332566090422588233120196088881117382646459230476582421783292843int);
    lemma_fundamental_div_mod_converse(13982452012096332566090422588233120196088881117382646459230476582421783292843int * 3, m, 1int, 20059113164449722476024862019442085499570332194850115715002391852620123669946int);
    assert(mod_pow(3, 207841293025, 21888242871839275222246405745257275088696311157297823662689037894645226208583nat) == 20059113164449722476024862019442085499570332194850115715002391852620123669946nat);
    lemma_fundamental_div_mod_converse(20059113164449722476024862019442085499570332194850115715002391852620123669946int * 20059113164449722476024862019442085499570332194850115715002391852620123669946int, m, 18382837914407199771884441920088962816547095828390089314042108206080876662754int, 12260769873075540860541594523444723236950209416138760497408651365686192425334int);
    assert(mod_pow(3, 415682586050, 21888242871839275222246405745257275088696311157297823662689037894645226208583nat) == 12260769873075540860541594523444723236950209416138760497408651365686192425334nat);
    lemma_fundamental_div_mod_converse(12260769873075540860541594523444723236950209416138760497408651365686192425334int * 12260769873075540860541594523444723236950209416138760497408651365686192425334int, m, 6867909807137700039890502035289712998964359771170439209877690415561540610759int, 15710775630475212692876095929295991737827532099417490717393753669345417067059int);
    assert(mod_pow(3, 831365172100, 21888242871839275222246405745257275088696311157297823662689037894645226208583nat) == 15710775630475212692876095929295991737827532099417490717393753669345417067059nat);
    lemma_fundamental_div_mod_converse(15710775630475212692876095929295991737827532099417490717393753669345417067059int * 15710775630475212692876095929295991737827532099417490717393753669345417067059int, m, 11276760421399360635774320199453148881892012438926918132209860696171146075263int, 4384753955356078971416951511502612462421270033479042056033026011835448327152int);
    lemma_fundamental_div_mod_converse(4384753955356078971416951511502612462421270033479042056033026011835448327152int * 3, m, 0int, 13154261866068236914250854534507837387263810100437126168099078035506344981456int);
    assert(mod_pow(3, 1662730344201, 21888242871839275222246405745257275088696311157297823662689037894645226208583nat) == 13154261866068236914250854534507837387263810100437126168099078035506344981456nat);
    lemma_fundamental_div_mod_converse(13154261866068236914250854534507837387263810100437126168099078035506344981456int * 13154261866068236914250854534507837387263810100437126168099078035506344981456int, m, 7905367564415958426816881467506155145089964239595439476906728003092662276669int, 7171603078113290346511657473701599128199493435796100055162803876869135429909int);
    lemma_fundamental_div_mod_converse(7171603078113290346511657473701599128199493435796100055162803876869135429909int * 3, m, 0int, 21514809234339871039534972421104797384598480307388300165488411630607406289727int);
    assert(mod_pow(3, 3325460688403, 21888242871839275222246405745257275088696311157297823662689037894645226208583nat) == 21514809234339871039534972421104797384598480307388300165488411630607406289727nat);
    lemma_fundamental_div_mod_converse(21514809234339871039534972421104797384598480307388300165488411630607406289727int * 21514809234339871039534972421104797384598480307388300165488411630607406289727int, m, 21147746719567520102539170663680684941266272215868224743437690756712987402106int, 1511276980661715942496272677285772740875930659541551532180529079623016258731int);
    assert(mod_pow(3, 6650921376806, 21888242871839275222246405745257275088696311157297823662689037894645226208583nat) == 1511276980661715942496272677285772740875930659541551532180529079623016258731nat);
    lemma_fundamental_div_mod_converse(1511276980661715942496272677285772740875930659541551532180529079623016258731int * 1511276980661715942496272677285772740875930659541551532180529079623016258731int, m, 104346343635306660796599648219298606605066823952983055469933547497771803095int, 1822488851241516275301322618364631226576347226278706963507607059661858765976int);
    assert(mod_pow(3, 13301842753612, 21888242871839275222246405745257275088696311157297823662689037894645226208583nat) == 1822488851241516275301322618364631226576347226278706963507607059661858765976nat);
    lemma_fundamental_div_mod_converse(1822488851241516275301322618364631226576347226278706963507607059661858765976int * 1822488851241516275301322618364631226576347226278706963507607059661858765976int, m, 151746562405560421621369242554047535221765807955631218842082160659847642772int, 4999346056887412793414245782437888801158210660271461422532901031066190920500int);
    assert(mod_pow(3, 26603685507224, 21888242871839275222246405745257275088696311157297823662689037894645226208583nat) == 4999346056887412793414245782437888801158210660271461422532901031066190920500nat);
    lemma_fundamental_div_mod_converse(4999346056887412793414245782437888801158210660271461422532901031066190920500int * 4999346056887412793414245782437888801158210660271461422532901031066190920500int, m, 1141866943950604786818862338746835191341319459732818543391008008583524056804int, 3813738035041190756432063445894441113105542325761877639458430728021275901268int);
    lemma_fundamental_div_mod_converse(3813738035041190756432063445894441113105542325761877639458430728021275901268int * 3, m, 0int, 11441214105123572269296190337683323339316626977285632918375292184063827703804int);
    assert(mod_pow(3, 53207371014449, 21888242871839275222246405745257275088696311157297823662689037894645226208583nat) == 11441214105123572269296190337683323339316626977285632918375292184063827703804nat);
    lemma_fundamental_div_mod_converse(11441214105123572269296190337683323339316626977285632918375292184063827703804int * 11441214105123572269296190337683323339316626977285632918375292184063827703804int, m, 5980442604083682881127234284004580854659963768613127368078710340902530640362int, 11429779749258604195241714302435945534567428435732981138371362586130785443370int);
    lemma_fundamental_div_mod_converse(11429779749258604195241714302435945534567428435732981138371362586130785443370int * 3, m, 1int, 12401096375936537363478737162050561515005974149901119752425049863747130121527int);
    assert(mod_pow(3, 106414742028899, 21888242871839275222246405745257275088696311157297823662689037894645226208583nat) == 12401096375936537363478737162050561515005974149901119752425049863747130121527nat);
    lemma_fundamental_div_mod_converse(12401096375936537363478737162050561515005974149901119752425049863747130121527int * 12401096375936537363478737162050561515005974149901119752425049863747130121527int, m, 7026018133375342054977953684918917580418166528808132269296516052471958750373int, 16455939258734788606637556244183862012165538143464413277289356206208461760270int);
    assert(mod_pow(3, 212829484057798, 21888242871839275222246405745257275088696311157297823662689037894645226208583nat) == 16455939258734788606637556244183862012165538143464413277289356206208461760270nat);
    lemma_fundamental_div_mod_converse(16455939258734788606637556244183862012165538143464413277289356206208461760270int * 16455939258734788606637556244183862012165538143464413277289356206208461760270int, m, 12371844486227305687061410949944981647539595558727542481119248117118755887437int, 3750035245454027717422952670521560340388675361550689933185839847981919201129int);
    lemma_fundamental_div_mod_converse(3750035245454027717422952670521560340388675361550689933185839847981919201129int * 3, m, 0int, 11250105736362083152268858011564681021166026084652069799557519543945757603387int);
    assert(mod_pow(3, 425658968115597, 21888242871839275222246405745257275088696311157297823662689037894645226208583nat) == 11250105736362083152268858011564681021166026084652069799557519543945757603387nat);
    lemma_fundamental_div_mod_converse(11250105736362083152268858011564681021166026084652069799557519543945757603387int * 11250105736362083152268858011564681021166026084652069799557519543945757603387int, m, 5782322492508589690421306027223493394498255186652165074380378771711483219306int, 16431425480501984440494981538270612719506649183699987520843235526084505368371int);
    assert(mod_pow(3, 851317936231194, 21888242871839275222246405745257275088696311157297823662689037894645226208583nat) == 16431425480501984440494981538270612719506649183699987520843235526084505368371nat);
    lemma_fundamental_div_mod_converse(16431425480501984440494981538270612719506649183699987520843235526084505368371int * 16431425480501984440494981538270612719506649183699987520843235526084505368371int, m, 12335012221042775185005381568102877885118960806623745405984290691350433671210int, 10550527855011969414482691572688930440289073110337027487622031947868505198211int);
    assert(mod_pow(3, 1702635872462388, 21888242871839275222246405745257275088696311157297823662689037894645226208583nat) == 10550527855011969414482691572688930440289073110337027487622031947868505198211nat);
    lemma_fundamental_div_mod_converse(10550527855011969414482691572688930440289073110337027487622031947868505198211int * 10550527855011969414482691572688930440289073110337027487622031947868505198211int, m, 5085544722395057740296733711205921235683500423506141931572282763651117078522int, 18767511153883594143334570420515633892068340356977938416676901538138836246195int);
    assert(mod_pow(3, 3405271744924776, 21888242871839275222246405745257275088696311157297823662689037894645226208583nat) == 18767511153883594143334570420515633892068340356977938416676901538138836246195nat);
    lemma_fundamental_div_mod_converse(18767511153883594143334570420515633892068340356977938416676901538138836246195int * 18767511153883594143334570420515633892068340356977938416676901538138836246195int, m, 16091719969184900289195544625057465424362880557975947316572823136856848070964int, 15268662102257889883638531087220200065661829494884796944597680813759602094013int);
    assert(mod_pow(3, 6810543489849552, 21888242871839275222246405745257275088696311157297823662689037894645226208583nat) == 15268662102257889883638531087220200065661829494884796944597680813759602094013nat);
    lemma_fundamental_div_mod_converse(15268662102257889883638531087220200065661829494884796944597680813759602094013int * 15268662102257889883638531087220200065661829494884796944597680813759602094013int, m, 10651016792803714632344716585532382546877703129233644084767525856478925906477int, 1725713184447246733185457272308889037862618756915564241109678052603337752078int);
    assert(mod_pow(3, 13621086979699104, 21888242871839275222246405745257275088696311157297823662689037894645226208583nat) == 1725713184447246733185457272308889037862618756915564241109678052603337752078nat);
    lemma_fundamental_div_mod_converse(1725713184447246733185457272308889037862618756915564241109678052603337752078int * 1725713184447246733185457272308889037862618756915564241109678052603337752078int, m, 136058705690193559971736937973541423161840017678551563380504938479177065952int, 10426773375396206115634278024161291068313018317138700020272157748399093852068int);
    assert(mod_pow(3, 27242173959398208, 21888242871839275222246405745257275088696311157297823662689037894645226208583nat) == 10426773375396206115634278024161291068313018317138700020272157748399093852068nat);
    lemma_fundamental_div_mod_converse(10426773375396206115634278024161291068313018317138700020272157748399093852068int * 10426773375396206115634278024161291068313018317138700020272157748399093852068int, m, 4966940638334374555197684572545649753276733882541485515060469576292018009210int, 3002008135698019307621025141475509677836934219805679131569701017950792827194int);
    assert(mod_pow(3, 54484347918796416, 21888242871839275222246405745257275088696311157297823662689037894645226208583nat) == 3002008135698019307621025141475509677836934219805679131569701017950792827194nat);
    lemma_fundamental_div_mod_converse(3002008135698019307621025141475509677836934219805679131569701017950792827194int * 3002008135698019307621025141475509677836934219805679131569701017950792827194int, m, 411730301950903570296123682771230893667520829184144953052603694663792767411int, 5376040286527082363019051098539065604757212866516648293777044202142855025023int);
    lemma_fundamental_div_mod_converse(5376040286527082363019051098539065604757212866516648293777044202142855025023int * 3, m, 0int, 16128120859581247089057153295617196814271638599549944881331132606428565075069int);
    assert(mod_pow(3, 108968695837592833, 21888242871839275222246405745257275088696311157297823662689037894645226208583nat) == 16128120859581247089057153295617196814271638599549944881331132606428565075069nat);
    lemma_fundamental_div_mod_converse(16128120859581247089057153295617196814271638599549944881331132606428565075069int * 16128120859581247089057153295617196814271638599549944881331132606428565075069int, m, 11883835718760100723475159355230499706846546521580352839294982183541188525772int, 8275789628920957561423975252472355391377536943108645916315921727406862253685int);
    assert(mod_pow(3, 217937391675185666, 21888242871839275222246405745257275088696311157297823662689037894645226208583nat) == 8275789628920957561423975252472355391377536943108645916315921727406862253685nat);
    lemma_fundamental_div_mod_converse(8275789628920957561423975252472355391377536943108645916315921727406862253685int * 8275789628920957561423975252472355391377536943108645916315921727406862253685int, m, 3129017453944239617309829469395498896206484490887251469017796071518504743387int, 13752886428365160430552730567239613405853231309078017969145887384741944188604int);
    lemma_fundamental_div_mod_converse(13752886428365160430552730567239613405853231309078017969145887384741944188604int * 3, m, 1int, 19370416413256206069411785956461565128863382769936230244748624259580606357229int);
    assert(mod_pow(3, 435874783350371333, 21888242871839275222246405745257275088696311157297823662689037894645226208583nat) == 19370416413256206069411785956461565128863382769936230244748624259580606357229nat);
    lemma_fundamental_div_mod_converse(19370416413256206069411785956461565128863382769936230244748624259580606357229int * 19370416413256206069411785956461565128863382769936230244748624259580606357229int, m, 17142218049201322945705832358846742501086439650303513609956925299335012782031int, 21400694806758502714424662429445222387305729074283342841798627469024040186368int);
    assert(mod_pow(3, 871749566700742666, 21888242871839275222246405745257275088696311157297823662689037894645226208583nat) == 21400694806758502714424662429445222387305729074283342841798627469024040186368nat);
    lemma_fundamental_div_mod_converse(21400694806758502714424662429445222387305729074283342841798627469024040186368int * 21400694806758502714424662429445222387305729074283342841798627469024040186368int, m, 20924006595397181873347445368732356592813606745098410566262535979866395939414int, 987496274653328976947963664289091017459485179443793947514586751806378241062int);
    assert(mod_pow(3, 1743499133401485332, 21888242871839275222246405745257275088696311157297823662689037894645226208583nat) == 987496274653328976947963664289091017459485179443793947514586751806378241062nat);
    lemma_fundamental_div_mod_converse(987496274653328976947963664289091017459485179443793947514586751806378241062int * 987496274653328976947963664289091017459485179443793947514586751806378241062int, m, 44551264263829913397306736612359527204547317397759866523276946974886533030int, 11127734745743635536089015038330693506701417134185849487178398938672483891354int);
    lemma_fundamental_div_mod_converse(11127734745743635536089015038330693506701417134185849487178398938672483891354int * 3, m, 1int, 11494961365391631386020639369734805431407940245259724798846158921372225465479int);
    assert(mod_pow(3, 3486998266802970665, 21888242871839275222246405745257275088696311157297823662689037894645226208583nat) == 11494961365391631386020639369734805431407940245259724798846158921372225465479nat);
    lemma_fundamental_div_mod_converse(11494961365391631386020639369734805431407940245259724798846158921372225465479int * 11494961365391631386020639369734805431407940245259724798846158921372225465479int, m, 6036763095398848237673637415992390633173010248054828343623819220654700901545int, 2383674768999661036488367169021780853470744114033987355715881519305903738706int);
    lemma_fundamental_div_mod_converse(2383674768999661036488367169021780853470744114033987355715881519305903738706int * 3, m, 0int, 7151024306998983109465101507065342560412232342101962067147644557917711216118int);
    assert(mod_pow(3, 6973996533605941331, 21888242871839275222246405745257275088696311157297823662689037894645226208583nat) == 7151024306998983109465101507065342560412232342101962067147644557917711216118nat);
    lemma_fundamental_div_mod_converse(7151024306998983109465101507065342560412232342101962067147644557917711216118int * 7151024306998983109465101507065342560412232342101962067147644557917711216118int, m, 2336283864296925064565465863537309690856919397961965901553521968979875367527int, 12422107479418564588505691696080421156924808519046288376978627885458616105683int);
    assert(mod_pow(3, 13947993067211882662nat, 21888242871839275222246405745257275088696311157297823662689037894645226208583nat) == 12422107479418564588505691696080421156924808519046288376978627885458616105683nat);
    lemma_fundamental_div_mod_converse(12422107479418564588505691696080421156924808519046288376978627885458616105683int * 12422107479418564588505691696080421156924808519046288376978627885458616105683int, m, 7049846583562695816799115918157510937428456283744249419693589056881908870363int, 9906712872283381370676160600331563868607895964082101084896953391805679970860int);
    lemma_fundamental_div_mod_converse(9906712872283381370676160600331563868607895964082101084896953391805679970860int * 3, m, 1int, 7831895745010868889782076055737416517127376734948479592001822280771813703997int);
    assert(mod_pow(3, 27895986134423765325nat, 21888242871839275222246405745257275088696311157297823662689037894645226208583nat) == 7831895745010868889782076055737416517127376734948479592001822280771813703997nat);
    lemma_fundamental_div_mod_converse(7831895745010868889782076055737416517127376734948479592001822280771813703997int * 7831895745010868889782076055737416517127376734948479592001822280771813703997int, m, 2802353360197572311974442070095508236382608046835316508748133198799228941068int, 84599147402104138409065714604276277834446299673655463092571336457150989365int);
    lemma_fundamental_div_mod_converse(84599147402104138409065714604276277834446299673655463092571336457150989365int * 3, m, 0int, 253797442206312415227197143812828833503338899020966389277714009371452968095int);
    assert(mod_pow(3, 55791972268847530651nat, 21888242871839275222246405745257275088696311157297823662689037894645226208583nat) == 253797442206312415227197143812828833503338899020966389277714009371452968095nat);
    lemma_fundamental_div_mod_converse(253797442206312415227197143812828833503338899020966389277714009371452968095int * 253797442206312415227197143812828833503338899020966389277714009371452968095int, m, 2942819213384113736071940881706109663806110097896137455205570025018281974int, 4509501952251807455534728234210177242346061345040283842231411927240654946183int);
    lemma_fundamental_div_mod_converse(4509501952251807455534728234210177242346061345040283842231411927240654946183int * 3, m, 0int, 13528505856755422366604184702630531727038184035120851526694235781721964838549int);
    assert(mod_pow(3, 111583944537695061303nat, 21888242871839275222246405745257275088696311157297823662689037894645226208583nat) == 13528505856755422366604184702630531727038184035120851526694235781721964838549nat);
    lemma_fundamental_div_mod_converse(13528505856755422366604184702630531727038184035120851526694235781721964838549int * 13528505856755422366604184702630531727038184035120851526694235781721964838549int, m, 8361588081231232371684999209020415867646771255107998821373483781516267697438int, 5912294820627953392166132698137592879584490007424156261549414712287513715047int);
    assert(mod_pow(3, 223167889075390122606nat, 21888242871839275222246405745257275088696311157297823662689037894645226208583nat) == 5912294820627953392166132698137592879584490007424156261549414712287513715047nat);
    lemma_fundamental_div_mod_converse(5912294820627953392166132698137592879584490007424156261549414712287513715047int * 5912294820627953392166132698137592879584490007424156261549414712287513715047int, m, 1596986576341238566295215690134982462523211994615499917166912892814236090434int, 10737228551341653193904539867163901808239166548537613629272155713952979217187int);
    assert(mod_pow(3, 446335778150780245212nat, 21888242871839275222246405745257275088696311157297823662689037894645226208583nat) == 10737228551341653193904539867163901808239166548537613629272155713952979217187nat);
    lemma_fundamental_div_mod_converse(10737228551341653193904539867163901808239166548537613629272155713952979217187int * 10737228551341653193904539867163901808239166548537613629272155713952979217187int, m, 5267123434200942180624746803548286575604768656535296835710483845058844076040int, 17259787753374307416884879560923436098283207182660310688822025576488363541649int);
    assert(mod_pow(3, 892671556301560490424nat, 21888242871839275222246405745257275088696311157297823662689037894645226208583nat) == 17259787753374307416884879560923436098283207182660310688822025576488363541649nat);
    lemma_fundamental_div_mod_converse(17259787753374307416884879560923436098283207182660310688822025576488363541649int * 17259787753374307416884879560923436098283207182660310688822025576488363541649int, m, 13610058835503823983258623780353415809399924414799205584894140733324030085196int, 1209925229845234085855412108644203721161020043706728482957746559113001201933int);
    assert(mod_pow(3, 1785343112603120980848nat, 21888242871839275222246405745257275088696311157297823662689037894645226208583nat) == 1209925229845234085855412108644203721161020043706728482957746559113001201933nat);
    lemma_fundamental_div_mod_converse(1209925229845234085855412108644203721161020043706728482957746559113001201933int * 1209925229845234085855412108644203721161020043706728482957746559113001201933int, m, 66881524953264967121422297099453159996864551416160381138219988251769521417int, 15974246463106758066644686248420572039489193494990326095525442189655315214378int);
    lemma_fundamental_div_mod_converse(15974246463106758066644686248420572039489193494990326095525442189655315214378int * 3, m, 2int, 4146253645641723755441247254747165941074958170375330961198250779675493225968int);
    assert(mod_pow(3, 3570686225206241961697nat, 21888242871839275222246405745257275088696311157297823662689037894645226208583nat) == 4146253645641723755441247254747165941074958170375330961198250779675493225968nat);
    lemma_fundamental_div_mod_converse(4146253645641723755441247254747165941074958170375330961198250779675493225968int * 4146253645641723755441247254747165941074958170375330961198250779675493225968int, m, 785417970490231732947907822861921143790148742174021758649198203798100827281int, 6499153609486948170160198168380655074369931658208985646148823056180146784201int);
    assert(mod_pow(3, 7141372450412483923394nat, 21888242871839275222246405745257275088696311157297823662689037894645226208583nat) == 6499153609486948170160198168380655074369931658208985646148823056180146784201nat);
    lemma_fundamental_div_mod_converse(6499153609486948170160198168380655074369931658208985646148823056180146784201int * 6499153609486948170160198168380655074369931658208985646148823056180146784201int, m, 1929757353617936710639443313307303732313493613371324015549008368893586546706int, 11297104031660963204017382858129247737740628834707732923602781090073435630803int);
    lemma_fundamental_div_mod_converse(11297104031660963204017382858129247737740628834707732923602781090073435630803int * 3, m, 1int, 12003069223143614389805742829130468124525575346825375108119305375575080683826int);
    assert(mod_pow(3, 14282744900824967846789nat, 21888242871839275222246405745257275088696311157297823662689037894645226208583nat) == 12003069223143614389805742829130468124525575346825375108119305375575080683826nat);
    lemma_fundamental_div_mod_converse(12003069223143614389805742829130468124525575346825375108119305375575080683826int * 12003069223143614389805742829130468124525575346825375108119305375575080683826int, m, 6582240137737968157940029507120105504183773254969111703272451245903933147225int, 9073652237257286660546901147417452507549860068354373726937185028294280366101int);
    assert(mod_pow(3, 28565489801649935693578nat, 21888242871839275222246405745257275088696311157297823662689037894645226208583nat) == 9073652237257286660546901147417452507549860068354373726937185028294280366101nat);
    lemma_fundamental_div_mod_converse(9073652237257286660546901147417452507549860068354373726937185028294280366101int * 9073652237257286660546901147417452507549860068354373726937185028294280366101int, m, 3761433268296234531164031889613211947840736611336704295468376927227628842846int, 12415186653965936909334236213526986438261890540656123558929339529878466594983int);
    assert(mod_pow(3, 57130979603299871387156nat, 21888242871839275222246405745257275088696311157297823662689037894645226208583nat) == 12415186653965936909334236213526986438261890540656123558929339529878466594983nat);
    lemma_fundamental_div_mod_converse(12415186653965936909334236213526986438261890540656123558929339529878466594983int * 12415186653965936909334236213526986438261890540656123558929339529878466594983int, m, 7041993300025081120949050577196112074394062384645213749436645163182393163457int, 7662412123106163067398766292557392694925474778871970481483601599206665418858int);
    assert(mod_pow(3, 114261959206599742774312nat, 21888242871839275222246405745257275088696311157297823662689037894645226208583nat) == 7662412123106163067398766292557392694925474778871970481483601599206665418858nat);
    lemma_fundamental_div_mod_converse(7662412123106163067398766292557392694925474778871970481483601599206665418858int * 7662412123106163067398766292557392694925474778871970481483601599206665418858int, m, 2682378840919296896468177775974033320220522559218934053234805915105166057325int, 11607561685955257480370485616788613092221947604755376409508364801320397003689int);
    assert(mod_pow(3, 228523918413199485548624nat, 21888242871839275222246405745257275088696311157297823662689037894645226208583nat) == 11607561685955257480370485616788613092221947604755376409508364801320397003689nat);
    lemma_fundamental_div_mod_converse(11607561685955257480370485616788613092221947604755376409508364801320397003689int * 11607561685955257480370485616788613092221947604755376409508364801320397003689int, m, 6155610072593031237618843746943820173594546959834340891647887825236407234726int, 2850340570566894577019543514801277659381855454188612476024688988040762755463int);
    assert(mod_pow(3, 457047836826398971097248nat, 21888242871839275222246405745257275088696311157297823662689037894645226208583nat) == 2850340570566894577019543514801277659381855454188612476024688988040762755463nat);
    lemma_fundamental_div_mod_converse(2850340570566894577019543514801277659381855454188612476024688988040762755463int * 2850340570566894577019543514801277659381855454188612476024688988040762755463int, m, 371178326912310573433447538812885698630883913453690938533920990675745303996int, 7119860277570770946031279950820956495927860224688967290223423061830496946701int);
    lemma_fundamental_div_mod_converse(7119860277570770946031279950820956495927860224688967290223423061830496946701int * 3, m, 0int, 21359580832712312838093839852462869487783580674066901870670269185491490840103int);
    assert(mod_pow(3, 914095673652797942194497nat, 21888242871839275222246405745257275088696311157297823662689037894645226208583nat) == 21359580832712312838093839852462869487783580674066901870670269185491490840103nat);
    lemma_fundamental_div_mod_converse(21359580832712312838093839852462869487783580674066901870670269185491490840103int * 21359580832712312838093839852462869487783580674066901870670269185491490840103int, m, 20843687454516715239419304797460286027913749188786196239687443474845952932721int, 10945717853452218561770737274187769524852106253704046408990827679912201306266int);
    assert(mod_pow(3, 1828191347305595884388994nat, 21888242871839275222246405745257275088696311157297823662689037894645226208583nat) == 10945717853452218561770737274187769524852106253704046408990827679912201306266nat);
    lemma_fundamental_div_mod_converse(10945717853452218561770737274187769524852106253704046408990827679912201306266int * 10945717853452218561770737274187769524852106253704046408990827679912201306266int, m, 5473657251927005916886086336070032460329958561755626260259337739125866005738int, 12647129595177094640396516443154731677177146681070051210156001100580868013502int);
    assert(mod_pow(3, 3656382694611191768777988nat, 21888242871839275222246405745257275088696311157297823662689037894645226208583nat) == 12647129595177094640396516443154731677177146681070051210156001100580868013502nat);
    lemma_fundamental_div_mod_converse(12647129595177094640396516443154731677177146681070051210156001100580868013502int * 12647129595177094640396516443154731677177146681070051210156001100580868013502int, m, 7307570915296761216953130082721588103223467586026568639521208361424914414863int, 18637325768277973272717499136207845436186405061687493985262055650442220934875int);
    assert(mod_pow(3, 7312765389222383537555976nat, 21888242871839275222246405745257275088696311157297823662689037894645226208583nat) == 18637325768277973272717499136207845436186405061687493985262055650442220934875nat);
    lemma_fundamental_div_mod_converse(18637325768277973272717499136207845436186405061687493985262055650442220934875int * 18637325768277973272717499136207845436186405061687493985262055650442220934875int, m, 15869246052628903219064638520238741887378675848652916732761229555819775137471int, 20785477553345413341964046955188123013380217432266029012617942261698046152032int);
    lemma_fundamental_div_mod_converse(20785477553345413341964046955188123013380217432266029012617942261698046152032int * 3, m, 2int, 18579946916357689581399329375049818862748029982202439712475750995803686038930int);
    assert(mod_pow(3, 14625530778444767075111953nat, 21888242871839275222246405745257275088696311157297823662689037894645226208583nat) == 18579946916357689581399329375049818862748029982202439712475750995803686038930nat);
    lemma_fundamental_div_mod_converse(18579946916357689581399329375049818862748029982202439712475750995803686038930int * 18579946916357689581399329375049818862748029982202439712475750995803686038930int, m, 15771682973182449533923667587644601928611830688260074597446550227437335024392int, 13529165380620181111378895027913266622099407175904185417253391412989490788364int);
    assert(mod_pow(3, 29251061556889534150223906nat, 21888242871839275222246405745257275088696311157297823662689037894645226208583nat) == 13529165380620181111378895027913266622099407175904185417253391412989490788364nat);
    lemma_fundamental_div_mod_converse(13529165380620181111378895027913266622099407175904185417253391412989490788364int * 13529165380620181111378895027913266622099407175904185417253391412989490788364int, m, 8362403367319308657289165612685813974688016541787221607063787594714809446324int, 4858590372122018253215980324357738687213177792527025836325770324262271197604int);
    lemma_fundamental_div_mod_converse(4858590372122018253215980324357738687213177792527025836325770324262271197604int * 3, m, 0int, 14575771116366054759647940973073216061639533377581077508977310972786813592812int);
    assert(mod_pow(3, 58502123113779068300447813nat, 21888242871839275222246405745257275088696311157297823662689037894645226208583nat) == 14575771116366054759647940973073216061639533377581077508977310972786813592812nat);
    lemma_fundamental_div_mod_converse(14575771116366054759647940973073216061639533377581077508977310972786813592812int * 14575771116366054759647940973073216061639533377581077508977310972786813592812int, m, 9706265819538507890232541819158055271765421366395998683112885993419892557744int, 9283032379994060708154185004044476437074127864161782011249584261348222150592int);
    lemma_fundamental_div_mod_converse(9283032379994060708154185004044476437074127864161782011249584261348222150592int * 3, m, 1int, 5960854268142906902216149266876154222526072435187522371059714889399440243193int);
    assert(mod_pow(3, 117004246227558136600895627nat, 21888242871839275222246405745257275088696311157297823662689037894645226208583nat) == 5960854268142906902216149266876154222526072435187522371059714889399440243193nat);
    lemma_fundamental_div_mod_converse(5960854268142906902216149266876154222526072435187522371059714889399440243193int * 5960854268142906902216149266876154222526072435187522371059714889399440243193int, m, 1623327364105210354038378943683527190429536022876435535841767437980168227261int, 15915341443416009940124866150846629349091195694579733653156139881947650054086int);
    assert(mod_pow(3, 234008492455116273201791254nat, 21888242871839275222246405745257275088696311157297823662689037894645226208583nat) == 15915341443416009940124866150846629349091195694579733653156139881947650054086nat);
    lemma_fundamental_div_mod_converse(15915341443416009940124866150846629349091195694579733653156139881947650054086int * 15915341443416009940124866150846629349091195694579733653156139881947650054086int, m, 11572335648120962781952347656297066424094667264982278959491604204732814228376int, 18667228497385813711065334457602843991676531625565003797655123294475551944188int);
    lemma_fundamental_div_mod_converse(18667228497385813711065334457602843991676531625565003797655123294475551944188int * 3, m, 2int, 12225199748478890688703191882293981797636972562099364067587294094136203415398int);
    assert(mod_pow(3, 468016984910232546403582509nat, 21888242871839275222246405745257275088696311157297823662689037894645226208583nat) == 12225199748478890688703191882293981797636972562099364067587294094136203415398nat);
    lemma_fundamental_div_mod_converse(12225199748478890688703191882293981797636972562099364067587294094136203415398int * 12225199748478890688703191882293981797636972562099364067587294094136203415398int, m, 6828118171262303048036480325227471181038537824704838116114573659768744957740int, 8228993130742423040069203052595439926473551355253891933944979983201383215984int);
    lemma_fundamental_div_mod_converse(8228993130742423040069203052595439926473551355253891933944979983201383215984int * 3, m, 1int, 2798736520387993897961203412529044690724342908463852139145902054958923439369int);
    assert(mod_pow(3, 936033969820465092807165019nat, 21888242871839275222246405745257275088696311157297823662689037894645226208583nat) == 2798736520387993897961203412529044690724342908463852139145902054958923439369nat);
    lemma_fundamental_div_mod_converse(2798736520387993897961203412529044690724342908463852139145902054958923439369int * 2798736520387993897961203412529044690724342908463852139145902054958923439369int, m, 357859977907641555389672769132728674977576720166363287024408144540750729908int, 10004082005575823522208222667496890130729759350987406274551713472243514717797int);
    assert(mod_pow(3, 1872067939640930185614330038nat, 21888242871839275222246405745257275088696311157297823662689037894645226208583nat) == 10004082005575823522208222667496890130729759350987406274551713472243514717797nat);
    lemma_fundamental_div_mod_converse(10004082005575823522208222667496890130729759350987406274551713472243514717797int * 10004082005575823522208222667496890130729759350987406274551713472243514717797int, m, 4572393378504032546448237155493616590217927584579701407032874340836283779984int, 3106426558360504702784058900513086410003657350629683160070153577216484130537int);
    lemma_fundamental_div_mod_converse(3106426558360504702784058900513086410003657350629683160070153577216484130537int * 3, m, 0int, 9319279675081514108352176701539259230010972051889049480210460731649452391611int);
    assert(mod_pow(3, 3744135879281860371228660077nat, 21888242871839275222246405745257275088696311157297823662689037894645226208583nat) == 9319279675081514108352176701539259230010972051889049480210460731649452391611nat);
    lemma_fundamental_div_mod_converse(9319279675081514108352176701539259230010972051889049480210460731649452391611int * 9319279675081514108352176701539259230010972051889049480210460731649452391611int, m, 3967836713568477843658215514063537360198163738258017148863744261424761187703int, 7513829649914948509130218489449066541688784401825703275851003911429010520472int);
    lemma_fundamental_div_mod_converse(7513829649914948509130218489449066541688784401825703275851003911429010520472int * 3, m, 1int, 653246077905570305144249723089924536370042048179286164863973839641805352833int);
    assert(mod_pow(3, 7488271758563720742457320155nat, 21888242871839275222246405745257275088696311157297823662689037894645226208583nat) == 653246077905570305144249723089924536370042048179286164863973839641805352833nat);
    lemma_fundamental_div_mod_converse(653246077905570305144249723089924536370042048179286164863973839641805352833int * 653246077905570305144249723089924536370042048179286164863973839641805352833int, m, 19495874602525924425378817631585745024169407060774223164575445606784489890int, 20395799627873017315367700586020698727100777169685934782273990765397226400019int);
    assert(mod_pow(3, 14976543517127441484914640310nat, 21888242871839275222246405745257275088696311157297823662689037894645226208583nat) == 20395799627873017315367700586020698727100777169685934782273990765397226400019nat);
    lemma_fundamental_div_mod_converse(20395799627873017315367700586020698727100777169685934782273990765397226400019int * 20395799627873017315367700586020698727100777169685934782273990765397226400019int, m, 19005118176733273274471576641849378419933725479489344272975046686823434411603int, 9361169841724949361142831621267292289980781755901566802031808506677449811812int);
    lemma_fundamental_div_mod_converse(9361169841724949361142831621267292289980781755901566802031808506677449811812int * 3, m, 1int, 6195266653335572861182089118544601781246034110406876743406387625387123226853int);
    assert(mod_pow(3, 29953087034254882969829280621nat, 21888242871839275222246405745257275088696311157297823662689037894645226208583nat) == 6195266653335572861182089118544601781246034110406876743406387625387123226853nat);
    lemma_fundamental_div_mod_converse(6195266653335572861182089118544601781246034110406876743406387625387123226853int * 6195266653335572861182089118544601781246034110406876743406387625387123226853int, m, 1753513478933110688226854164987378633295087758381364962554116596237168013162int, 10222654717609706842583794427144366542502336176914331287784458793398998914163int);
    assert(mod_pow(3, 59906174068509765939658561242nat, 21888242871839275222246405745257275088696311157297823662689037894645226208583nat) == 10222654717609706842583794427144366542502336176914331287784458793398998914163nat);
    lemma_fundamental_div_mod_converse(10222654717609706842583794427144366542502336176914331287784458793398998914163int * 10222654717609706842583794427144366542502336176914331287784458793398998914163int, m, 4774374539215198609422316416672364899981923266214382018145848679486444279816int, 9731781817366961062794919596158585663055813637137672655796346307687409129841int);
    assert(mod_pow(3, 119812348137019531879317122484nat, 21888242871839275222246405745257275088696311157297823662689037894645226208583nat) == 9731781817366961062794919596158585663055813637137672655796346307687409129841nat);
    lemma_fundamental_div_mod_converse(9731781817366961062794919596158585663055813637137672655796346307687409129841int * 9731781817366961062794919596158585663055813637137672655796346307687409129841int, m, 4326869812957073015573038702547647063375728673389515132394744577334587793309int, 4571771260059654251712673222206185176636438123173780110423437210842270914134int);
    assert(mod_pow(3, 239624696274039063758634244968nat, 21888242871839275222246405745257275088696311157297823662689037894645226208583nat) == 4571771260059654251712673222206185176636438123173780110423437210842270914134nat);
    lemma_fundamental_div_mod_converse(4571771260059654251712673222206185176636438123173780110423437210842270914134int * 4571771260059654251712673222206185176636438123173780110423437210842270914134int, m, 954900426529811896810717435286056828452656661289947212982237725739646221831int, 9975774472296724932864274980796069663141627632990907659851760082367306794483int);
    assert(mod_pow(3, 479249392548078127517268489936nat, 21888242871839275222246405745257275088696311157297823662689037894645226208583nat) == 9975774472296724932864274980796069663141627632990907659851760082367306794483nat);
    lemma_fundamental_div_mod_converse(9975774472296724932864274980796069663141627632990907659851760082367306794483int * 9975774472296724932864274980796069663141627632990907659851760082367306794483int, m, 4546553915031765948351313438104182816698644781393097236706883577912682847742int, 2986079417151647044510064917016112667039523889161181528652366259070676667703int);
    assert(mod_pow(3, 958498785096156255034536979872nat, 21888242871839275222246405745257275088696311157297823662689037894645226208583nat) == 2986079417151647044510064917016112667039523889161181528652366259070676667703nat);
    lemma_fundamental_div_mod_converse(2986079417151647044510064917016112667039523889161181528652366259070676667703int * 2986079417151647044510064917016112667039523889161181528652366259070676667703int, m, 407372594399006218923750691851184346122413330691127048287333158443846967378int, 13753821945240438280270705412062741761376896182281740685654044513230858690835int);
    assert(mod_pow(3, 1916997570192312510069073959744nat, 21888242871839275222246405745257275088696311157297823662689037894645226208583nat) == 13753821945240438280270705412062741761376896182281740685654044513230858690835nat);
    lemma_fundamental_div_mod_converse(13753821945240438280270705412062741761376896182281740685654044513230858690835int * 13753821945240438280270705412062741761376896182281740685654044513230858690835int, m, 8642430514363242046354989897165827031427079682222209159092901662399947103736int, 8081302621714515089536725711821780152535857373465594641257321536719038431137int);
    lemma_fundamental_div_mod_converse(8081302621714515089536725711821780152535857373465594641257321536719038431137int * 3, m, 1int, 2355664993304270046363771390208065368911260963098960261082926715511889084828int);
    assert(mod_pow(3, 3833995140384625020138147919489nat, 21888242871839275222246405745257275088696311157297823662689037894645226208583nat) == 2355664993304270046363771390208065368911260963098960261082926715511889084828nat);
    lemma_fundamental_div_mod_converse(2355664993304270046363771390208065368911260963098960261082926715511889084828int * 2355664993304270046363771390208065368911260963098960261082926715511889084828int, m, 253522294739272023043247296696984890560193046399610737944748776706252015828int, 1955250051299979577436705622384134962169076472175731292333154089246034337860int);
    lemma_fundamental_div_mod_converse(1955250051299979577436705622384134962169076472175731292333154089246034337860int * 3, m, 0int, 5865750153899938732310116867152404886507229416527193876999462267738103013580int);
    assert(mod_pow(3, 7667990280769250040276295838979nat, 21888242871839275222246405745257275088696311157297823662689037894645226208583nat) == 5865750153899938732310116867152404886507229416527193876999462267738103013580nat);
    lemma_fundamental_div_mod_converse(5865750153899938732310116867152404886507229416527193876999462267738103013580int * 5865750153899938732310116867152404886507229416527193876999462267738103013580int, m, 1571940930546058168756922005030238515081378201422214810592890862385444432153int, 7965298423161303603144117235595054206044005303565294627998706470370094647201int);
    assert(mod_pow(3, 15335980561538500080552591677958nat, 21888242871839275222246405745257275088696311157297823662689037894645226208583nat) == 7965298423161303603144117235595054206044005303565294627998706470370094647201nat);
    lemma_fundamental_div_mod_converse(7965298423161303603144117235595054206044005303565294627998706470370094647201int * 7965298423161303603144117235595054206044005303565294627998706470370094647201int, m, 2898632811299967364274209426688361852643065070930768926642642360398295535349int, 17784034022584768330477492979928764079383711146043745097882619772061133433934int);
    assert(mod_pow(3, 30671961123077000161105183355916nat, 21888242871839275222246405745257275088696311157297823662689037894645226208583nat) == 17784034022584768330477492979928764079383711146043745097882619772061133433934nat);
    lemma_fundamental_div_mod_converse(17784034022584768330477492979928764079383711146043745097882619772061133433934int * 17784034022584768330477492979928764079383711146043745097882619772061133433934int, m, 14449394954556083200861087190045405986804388040235903845959664165378020141659int, 6656396095773158830520112266879485725935803496335962109417525728917601057159int);
    assert(mod_pow(3, 61343922246154000322210366711832nat, 21888242871839275222246405745257275088696311157297823662689037894645226208583nat) == 6656396095773158830520112266879485725935803496335962109417525728917601057159nat);
    lemma_fundamental_div_mod_converse(6656396095773158830520112266879485725935803496335962109417525728917601057159int * 6656396095773158830520112266879485725935803496335962109417525728917601057159int, m, 2024265229660299862435067141827085275223017641750267725817192696930216526400int, 16940265572733895999215407897093668058129679919147094000102279744994259060081int);
    assert(mod_pow(3, 122687844492308000644420733423664nat, 21888242871839275222246405745257275088696311157297823662689037894645226208583nat) == 16940265572733895999215407897093668058129679919147094000102279744994259060081nat);
    lemma_fundamental_div_mod_converse(16940265572733895999215407897093668058129679919147094000102279744994259060081int * 16940265572733895999215407897093668058129679919147094000102279744994259060081int, m, 13110810189517916525076333055806314269145582297859718622525693556616672003034int, 17022067387799334571346233829642838734466929394764863452484777080241474885739int);
    assert(mod_pow(3, 245375688984616001288841466847328nat, 21888242871839275222246405745257275088696311157297823662689037894645226208583nat) == 17022067387799334571346233829642838734466929394764863452484777080241474885739nat);
    lemma_fundamental_div_mod_converse(17022067387799334571346233829642838734466929394764863452484777080241474885739int * 17022067387799334571346233829642838734466929394764863452484777080241474885739int, m, 13237735886399812322238290437256909766841726097567339607996013851882713790900int, 4847034100061555022287578348946998438652484517656792604156724383329058281421int);
    assert(mod_pow(3, 490751377969232002577682933694656nat, 21888242871839275222246405745257275088696311157297823662689037894645226208583nat) == 4847034100061555022287578348946998438652484517656792604156724383329058281421nat);
    lemma_fundamental_div_mod_converse(4847034100061555022287578348946998438652484517656792604156724383329058281421int * 4847034100061555022287578348946998438652484517656792604156724383329058281421int, m, 1073349729565813385079494626003133682809793447085226470328006109686004573838int, 12867381189074929798865493807045924292686814834389343787309148090652620927687int);
    lemma_fundamental_div_mod_converse(12867381189074929798865493807045924292686814834389343787309148090652620927687int * 3, m, 1int, 16713900695385514174350075675880497789364133345870207699238406377312636574478int);
    assert(mod_pow(3, 981502755938464005155365867389313nat, 21888242871839275222246405745257275088696311157297823662689037894645226208583nat) == 16713900695385514174350075675880497789364133345870207699238406377312636574478nat);
    lemma_fundamental_div_mod_converse(16713900695385514174350075675880497789364133345870207699238406377312636574478int * 16713900695385514174350075675880497789364133345870207699238406377312636574478int, m, 12762763922663570976175728742222383930403126804614739018637582596437938285210int, 3884943192578571398878386824838982745979122465367117804497291545949237015054int);
    assert(mod_pow(3, 1963005511876928010310731734778626nat, 21888242871839275222246405745257275088696311157297823662689037894645226208583nat) == 3884943192578571398878386824838982745979122465367117804497291545949237015054nat);
    lemma_fundamental_div_mod_converse(3884943192578571398878386824838982745979122465367117804497291545949237015054int * 3884943192578571398878386824838982745979122465367117804497291545949237015054int, m, 689538383594074768913569546755965764504918191361829088319146267132510118169int, 2217701380951694075717872624369743166585332651564248443649040716558650578389int);
    lemma_fundamental_div_mod_converse(2217701380951694075717872624369743166585332651564248443649040716558650578389int * 3, m, 0int, 6653104142855082227153617873109229499755997954692745330947122149675951735167int);
    assert(mod_pow(3, 3926011023753856020621463469557253nat, 21888242871839275222246405745257275088696311157297823662689037894645226208583nat) == 6653104142855082227153617873109229499755997954692745330947122149675951735167nat);
    lemma_fundamental_div_mod_converse(6653104142855082227153617873109229499755997954692745330947122149675951735167int * 6653104142855082227153617873109229499755997954692745330947122149675951735167int, m, 2022263504423366224401032665380139863944181668936071778833658661677203835410int, 5051584323319904584635841900441662967729799355911363660217398978817843193859int);
    assert(mod_pow(3, 7852022047507712041242926939114506nat, 21888242871839275222246405745257275088696311157297823662689037894645226208583nat) == 5051584323319904584635841900441662967729799355911363660217398978817843193859nat);
    lemma_fundamental_div_mod_converse(5051584323319904584635841900441662967729799355911363660217398978817843193859int * 5051584323319904584635841900441662967729799355911363660217398978817843193859int, m, 1165854396126183480838034710483648872972825181259865470375685917655725771981int, 5848893809693605929273076293193060949300979885637714900930914595028452198958int);
    lemma_fundamental_div_mod_converse(5848893809693605929273076293193060949300979885637714900930914595028452198958int * 3, m, 0int, 17546681429080817787819228879579182847902939656913144702792743785085356596874int);
    assert(mod_pow(3, 15704044095015424082485853878229013nat, 21888242871839275222246405745257275088696311157297823662689037894645226208583nat) == 17546681429080817787819228879579182847902939656913144702792743785085356596874nat);
    lemma_fundamental_div_mod_converse(17546681429080817787819228879579182847902939656913144702792743785085356596874int * 17546681429080817787819228879579182847902939656913144702792743785085356596874int, m, 14066274345382293362753866865464728171138851231895914196380772460332521683634int, 20621337874625757331175576961969273149213803879490027974834248631108925141254int);
    lemma_fundamental_div_mod_converse(20621337874625757331175576961969273149213803879490027974834248631108925141254int * 3, m, 2int, 18087527880198721549033919395393269270248789323874436599124670104036323006596int);
    assert(mod_pow(3, 31408088190030848164971707756458027nat, 21888242871839275222246405745257275088696311157297823662689037894645226208583nat) == 18087527880198721549033919395393269270248789323874436599124670104036323006596nat);
    lemma_fundamental_div_mod_converse(18087527880198721549033919395393269270248789323874436599124670104036323006596int * 18087527880198721549033919395393269270248789323874436599124670104036323006596int, m, 14946776072092936468553955847469920886836186969659803007208678300154514254145int, 14204569497472436469350780571020169288539449655402943266857306872164617180681int);
    assert(mod_pow(3, 62816176380061696329943415512916054nat, 21888242871839275222246405745257275088696311157297823662689037894645226208583nat) == 14204569497472436469350780571020169288539449655402943266857306872164617180681nat);
    lemma_fundamental_div_mod_converse(14204569497472436469350780571020169288539449655402943266857306872164617180681int * 14204569497472436469350780571020169288539449655402943266857306872164617180681int, m, 9218181458874207639005679006543404101232828259352098808470786184357508520756int, 17026918451691532544990742933094342628678797250362156262250683319850358775013int);
    assert(mod_pow(3, 125632352760123392659886831025832108nat, 21888242871839275222246405745257275088696311157297823662689037894645226208583nat) == 17026918451691532544990742933094342628678797250362156262250683319850358775013nat);
    lemma_fundamental_div_mod_converse(17026918451691532544990742933094342628678797250362156262250683319850358775013int * 17026918451691532544990742933094342628678797250362156262250683319850358775013int, m, 13245282120546566133978269604458135968094693764627400505682828082284774410775int, 5606910652183103511407557857910248666299143712160909280073613513798880468344int);
    assert(mod_pow(3, 251264705520246785319773662051664216nat, 21888242871839275222246405745257275088696311157297823662689037894645226208583nat) == 5606910652183103511407557857910248666299143712160909280073613513798880468344nat);
    lemma_fundamental_div_mod_converse(5606910652183103511407557857910248666299143712160909280073613513798880468344int * 5606910652183103511407557857910248666299143712160909280073613513798880468344int, m, 1436270935297907612141124517770691564770324564759885157324773916359105674315int, 14523676083867553099519042892986370735175460594566321448488661288619730456691int);
    assert(mod_pow(3, 502529411040493570639547324103328432nat, 21888242871839275222246405745257275088696311157297823662689037894645226208583nat) == 14523676083867553099519042892986370735175460594566321448488661288619730456691nat);
    lemma_fundamental_div_mod_converse(14523676083867553099519042892986370735175460594566321448488661288619730456691int * 14523676083867553099519042892986370735175460594566321448488661288619730456691int, m, 9637007786517732186322793116773251294938592055855501576980357057186495621684int, 5607582609945754662351195069714204150882846655863038791576418342938584955709int);
    lemma_fundamental_div_mod_converse(5607582609945754662351195069714204150882846655863038791576418342938584955709int * 3, m, 0int, 16822747829837263987053585209142612452648539967589116374729255028815754867127int);
    assert(mod_pow(3, 1005058822080987141279094648206656865nat, 21888242871839275222246405745257275088696311157297823662689037894645226208583nat) == 16822747829837263987053585209142612452648539967589116374729255028815754867127nat);
    lemma_fundamental_div_mod_converse(16822747829837263987053585209142612452648539967589116374729255028815754867127int * 16822747829837263987053585209142612452648539967589116374729255028815754867127int, m, 12929536930093164585397894225530235014223817576362727678399945619101966675140int, 9411679476228712423823602968221100410538787297672429093938958113992784507509int);
    assert(mod_pow(3, 2010117644161974282558189296413313730nat, 21888242871839275222246405745257275088696311157297823662689037894645226208583nat) == 9411679476228712423823602968221100410538787297672429093938958113992784507509nat);
    lemma_fundamental_div_mod_converse(9411679476228712423823602968221100410538787297672429093938958113992784507509int * 9411679476228712423823602968221100410538787297672429093938958113992784507509int, m, 4046908245760953243814822267404602428554406613548154183462961174386956583762int, 914393781804985703323919460031290903006309094263506283558856286902354555835int);
    lemma_fundamental_div_mod_converse(914393781804985703323919460031290903006309094263506283558856286902354555835int * 3, m, 0int, 2743181345414957109971758380093872709018927282790518850676568860707063667505int);
    assert(mod_pow(3, 4020235288323948565116378592826627461nat, 21888242871839275222246405745257275088696311157297823662689037894645226208583nat) == 2743181345414957109971758380093872709018927282790518850676568860707063667505nat);
    lemma_fundamental_div_mod_converse(2743181345414957109971758380093872709018927282790518850676568860707063667505int * 2743181345414957109971758380093872709018927282790518850676568860707063667505int, m, 343793877740368963220646169827012155959202679052331256208700980893677809098int, 6741897488244735248568907035817563769294176342781072693492003094556589836891int);
    lemma_fundamental_div_mod_converse(6741897488244735248568907035817563769294176342781072693492003094556589836891int * 3, m, 0int, 20225692464734205745706721107452691307882529028343218080476009283669769510673int);
    assert(mod_pow(3, 8040470576647897130232757185653254923nat, 21888242871839275222246405745257275088696311157297823662689037894645226208583nat) == 20225692464734205745706721107452691307882529028343218080476009283669769510673nat);
    lemma_fundamental_div_mod_converse(20225692464734205745706721107452691307882529028343218080476009283669769510673int * 20225692464734205745706721107452691307882529028343218080476009283669769510673int, m, 18689423270440485449212961232532666142858825261453578433771302479209244754620int, 5537893162358826783201845087520074279766482212450759966261605118807088009469int);
    lemma_fundamental_div_mod_converse(5537893162358826783201845087520074279766482212450759966261605118807088009469int * 3, m, 0int, 16613679487076480349605535262560222839299446637352279898784815356421264028407int);
    assert(mod_pow(3, 16080941153295794260465514371306509847nat, 21888242871839275222246405745257275088696311157297823662689037894645226208583nat) == 16613679487076480349605535262560222839299446637352279898784815356421264028407nat);
    lemma_fundamental_div_mod_converse(16613679487076480349605535262560222839299446637352279898784815356421264028407int * 16613679487076480349605535262560222839299446637352279898784815356421264028407int, m, 12610164631095956943088470371438090366162433510971187298031029811924163273584int, 16122904132203659131834928543017014950641860274544097012594392378435624986177int);
    assert(mod_pow(3, 32161882306591588520931028742613019694nat, 21888242871839275222246405745257275088696311157297823662689037894645226208583nat) == 16122904132203659131834928543017014950641860274544097012594392378435624986177nat);
    lemma_fundamental_div_mod_converse(16122904132203659131834928543017014950641860274544097012594392378435624986177int * 16122904132203659131834928543017014950641860274544097012594392378435624986177int, m, 11876149181014013475082674013157059102897507694167582925400016773118876132488int, 19832301586877374912466326674550572091828425387673129141202387206468810330825int);
    lemma_fundamental_div_mod_converse(19832301586877374912466326674550572091828425387673129141202387206468810330825int * 3, m, 2int, 15720419016953574292906168533137166098092653848423740098229085830115978575309int);
    assert(mod_pow(3, 64323764613183177041862057485226039389nat, 21888242871839275222246405745257275088696311157297823662689037894645226208583nat) == 15720419016953574292906168533137166098092653848423740098229085830115978575309nat);
    lemma_fundamental_div_mod_converse(15720419016953574292906168533137166098092653848423740098229085830115978575309int * 15720419016953574292906168533137166098092653848423740098229085830115978575309int, m, 11290608182466181090832738137431408596029926146184702039118969719059414950185int, 3208559129963568514196224721690035655768533065202079831732281262690020007626int);
    lemma_fundamental_div_mod_converse(3208559129963568514196224721690035655768533065202079831732281262690020007626int * 3, m, 0int, 9625677389890705542588674165070106967305599195606239495196843788070060022878int);
    assert(mod_pow(3, 128647529226366354083724114970452078779nat, 21888242871839275222246405745257275088696311157297823662689037894645226208583nat) == 9625677389890705542588674165070106967305599195606239495196843788070060022878nat);
    lemma_fundamental_div_mod_converse(9625677389890705542588674165070106967305599195606239495196843788070060022878int * 9625677389890705542588674165070106967305599195606239495196843788070060022878int, m, 4233033494591675832558839251439199038937188852218442641681127374513281737913int, 10525062496231510627752966828184837740021979055141595557721414581167806295605int);
    assert(mod_pow(3, 257295058452732708167448229940904157558nat, 21888242871839275222246405745257275088696311157297823662689037894645226208583nat) == 10525062496231510627752966828184837740021979055141595557721414581167806295605nat);
    lemma_fundamental_div_mod_converse(10525062496231510627752966828184837740021979055141595557721414581167806295605int * 10525062496231510627752966828184837740021979055141595557721414581167806295605int, m, 5061024824980410138672292263616535627443748839015192913475252608393444121104int, 15344104737930043612489906949502322271935538491157597492181077865468026080393int);
    assert(mod_pow(3, 514590116905465416334896459881808315116nat, 21888242871839275222246405745257275088696311157297823662689037894645226208583nat) == 15344104737930043612489906949502322271935538491157597492181077865468026080393nat);
    lemma_fundamental_div_mod_converse(15344104737930043612489906949502322271935538491157597492181077865468026080393int * 15344104737930043612489906949502322271935538491157597492181077865468026080393int, m, 10756530416220797009916228080632899274821635039468068481977898424771228503454int, 3383513377608063606438751008776857347176141922976586956670311515269359088767int);
    lemma_fundamental_div_mod_converse(3383513377608063606438751008776857347176141922976586956670311515269359088767int * 3, m, 0int, 10150540132824190819316253026330572041528425768929760870010934545808077266301int);
    assert(mod_pow(3, 1029180233810930832669792919763616630233nat, 21888242871839275222246405745257275088696311157297823662689037894645226208583nat) == 10150540132824190819316253026330572041528425768929760870010934545808077266301nat);
    lemma_fundamental_div_mod_converse(10150540132824190819316253026330572041528425768929760870010934545808077266301int * 10150540132824190819316253026330572041528425768929760870010934545808077266301int, m, 4707251540992089251074839883313527151164604076061436827624180757567412325837int, 16672107897244876457856519175311575434239414427903446921624996090427948163630int);
    assert(mod_pow(3, 2058360467621861665339585839527233260466nat, 21888242871839275222246405745257275088696311157297823662689037894645226208583nat) == 16672107897244876457856519175311575434239414427903446921624996090427948163630nat);
    lemma_fundamental_div_mod_converse(16672107897244876457856519175311575434239414427903446921624996090427948163630int * 16672107897244876457856519175311575434239414427903446921624996090427948163630int, m, 12699017612555300909864877362070999745809249099353117501256845982967338731269int, 13849290275016508201798636538856038080781266631075416506986571170102876495073int);
    lemma_fundamental_div_mod_converse(13849290275016508201798636538856038080781266631075416506986571170102876495073int * 3, m, 1int, 19659627953210249383149503871310839153647488735928425858270675615663403276636int);
    assert(mod_pow(3, 4116720935243723330679171679054466520933nat, 21888242871839275222246405745257275088696311157297823662689037894645226208583nat) == 19659627953210249383149503871310839153647488735928425858270675615663403276636nat);
    lemma_fundamental_div_mod_converse(19659627953210249383149503871310839153647488735928425858270675615663403276636int * 19659627953210249383149503871310839153647488735928425858270675615663403276636int, m, 17657925924967956730238994438797869327965511638211400209884491561446398968481int, 17682859401529609416229961379613441771462338802088445498394568706023394804073int);
    lemma_fundamental_div_mod_converse(17682859401529609416229961379613441771462338802088445498394568706023394804073int * 3, m, 2int, 9272092460910277804197072648325775136994394091669689169805630328779731995053int);
    assert(mod_pow(3, 8233441870487446661358343358108933041867nat, 21888242871839275222246405745257275088696311157297823662689037894645226208583nat) == 9272092460910277804197072648325775136994394091669689169805630328779731995053nat);
    lemma_fundamental_div_mod_converse(9272092460910277804197072648325775136994394091669689169805630328779731995053int * 9272092460910277804197072648325775136994394091669689169805630328779731995053int, m, 3927756974694286433046599735953531476342887274866763314264865140886950734902int, 5438281057340043982161231335722842265249085804433500090351785988608626408943int);
    lemma_fundamental_div_mod_converse(5438281057340043982161231335722842265249085804433500090351785988608626408943int * 3, m, 0int, 16314843172020131946483694007168526795747257413300500271055357965825879226829int);
    assert(mod_pow(3, 16466883740974893322716686716217866083735nat, 21888242871839275222246405745257275088696311157297823662689037894645226208583nat) == 16314843172020131946483694007168526795747257413300500271055357965825879226829nat);
    lemma_fundamental_div_mod_converse(16314843172020131946483694007168526795747257413300500271055357965825879226829int * 16314843172020131946483694007168526795747257413300500271055357965825879226829int, m, 12160597325519590021559069223295328709710269886649153153198111099454090995722int, 9316893206816482576184091019928350343665316392408784547507519571281500713315int);
    lemma_fundamental_div_mod_converse(9316893206816482576184091019928350343665316392408784547507519571281500713315int * 3, m, 1int, 6062436748610172506305867314527775942299638019928529979833520819199275931362int);
    assert(mod_pow(3, 32933767481949786645433373432435732167471nat, 21888242871839275222246405745257275088696311157297823662689037894645226208583nat) == 6062436748610172506305867314527775942299638019928529979833520819199275931362nat);
    lemma_fundamental_div_mod_converse(6062436748610172506305867314527775942299638019928529979833520819199275931362int * 6062436748610172506305867314527775942299638019928529979833520819199275931362int, m, 1679126988223641877454333871887631471214275848373988600445090945649960619697int, 19151964499747570448800890048054619553352535245642944738092942347840074915693int);
    assert(mod_pow(3, 65867534963899573290866746864871464334942nat, 21888242871839275222246405745257275088696311157297823662689037894645226208583nat) == 19151964499747570448800890048054619553352535245642944738092942347840074915693nat);
    lemma_fundamental_div_mod_converse(19151964499747570448800890048054619553352535245642944738092942347840074915693int * 19151964499747570448800890048054619553352535245642944738092942347840074915693int, m, 16757751928616510663314605347298428040383421592805092362019277870131567867294int, 3998921545155513232581682886432076687909154059120558287518733687142149885847int);
    assert(mod_pow(3, 131735069927799146581733493729742928669884nat, 21888242871839275222246405745257275088696311157297823662689037894645226208583nat) == 3998921545155513232581682886432076687909154059120558287518733687142149885847nat);
    lemma_fundamental_div_mod_converse(3998921545155513232581682886432076687909154059120558287518733687142149885847int * 3998921545155513232581682886432076687909154059120558287518733687142149885847int, m, 730591926357092629880403389965639277545915135395790646991470828959317929851int, 16532852968755321357468725825719651938925114890043715051255884602862042796276int);
    assert(mod_pow(3, 263470139855598293163466987459485857339768nat, 21888242871839275222246405745257275088696311157297823662689037894645226208583nat) == 16532852968755321357468725825719651938925114890043715051255884602862042796276nat);
    lemma_fundamental_div_mod_converse(16532852968755321357468725825719651938925114890043715051255884602862042796276int * 16532852968755321357468725825719651938925114890043715051255884602862042796276int, m, 12487764727708963267406124404152607543176743636534876913609290463119877290676int, 1444564857470117514732952827751194505458580679772247417784976884267542396068int);
    assert(mod_pow(3, 526940279711196586326933974918971714679536nat, 21888242871839275222246405745257275088696311157297823662689037894645226208583nat) == 1444564857470117514732952827751194505458580679772247417784976884267542396068nat);
    lemma_fundamental_div_mod_converse(1444564857470117514732952827751194505458580679772247417784976884267542396068int * 1444564857470117514732952827751194505458580679772247417784976884267542396068int, m, 95337375396287772358193915625150887025062543721892644891158550828600311612int, 11778070108129115311509304368665616687609211639652668315949220647703472894828int);
    assert(mod_pow(3, 1053880559422393172653867949837943429359072nat, 21888242871839275222246405745257275088696311157297823662689037894645226208583nat) == 11778070108129115311509304368665616687609211639652668315949220647703472894828nat);
    lemma_fundamental_div_mod_converse(11778070108129115311509304368665616687609211639652668315949220647703472894828int * 11778070108129115311509304368665616687609211639652668315949220647703472894828int, m, 6337783086758469555053651848690015356135925024877147386979882921182100912696int, 11015077048399899932347401765015216844097667857663379626977046544342380279816int);
    assert(mod_pow(3, 2107761118844786345307735899675886858718144nat, 21888242871839275222246405745257275088696311157297823662689037894645226208583nat) == 11015077048399899932347401765015216844097667857663379626977046544342380279816nat);
    lemma_fundamental_div_mod_converse(11015077048399899932347401765015216844097667857663379626977046544342380279816int * 11015077048399899932347401765015216844097667857663379626977046544342380279816int, m, 5543246348855534961290171145876402971516017008428811375082664091966686409341int, 3008432268361587982134166508044547566981885167048113341809700120075071420053int);
    lemma_fundamental_div_mod_converse(3008432268361587982134166508044547566981885167048113341809700120075071420053int * 3, m, 0int, 9025296805084763946402499524133642700945655501144340025429100360225214260159int);
    assert(mod_pow(3, 4215522237689572690615471799351773717436289nat, 21888242871839275222246405745257275088696311157297823662689037894645226208583nat) == 9025296805084763946402499524133642700945655501144340025429100360225214260159nat);
    lemma_fundamental_div_mod_converse(9025296805084763946402499524133642700945655501144340025429100360225214260159int * 9025296805084763946402499524133642700945655501144340025429100360225214260159int, m, 3721449131244424938910148435435689058333479273325744055137144686405623730696int, 9583590936115963498992891248779158352512442487024264214442481428693818941513int);
    assert(mod_pow(3, 8431044475379145381230943598703547434872578nat, 21888242871839275222246405745257275088696311157297823662689037894645226208583nat) == 9583590936115963498992891248779158352512442487024264214442481428693818941513nat);
    lemma_fundamental_div_mod_converse(9583590936115963498992891248779158352512442487024264214442481428693818941513int * 9583590936115963498992891248779158352512442487024264214442481428693818941513int, m, 4196098141298003160832072223442515547824484966199506036929213543575739700413int, 2928538021674343328716489378067613536038973055429084329512930911027445484390int);
    lemma_fundamental_div_mod_converse(2928538021674343328716489378067613536038973055429084329512930911027445484390int * 3, m, 0int, 8785614065023029986149468134202840608116919166287252988538792733082336453170int);
    assert(mod_pow(3, 16862088950758290762461887197407094869745157nat, 21888242871839275222246405745257275088696311157297823662689037894645226208583nat) == 8785614065023029986149468134202840608116919166287252988538792733082336453170nat);
    lemma_fundamental_div_mod_converse(8785614065023029986149468134202840608116919166287252988538792733082336453170int * 8785614065023029986149468134202840608116919166287252988538792733082336453170int, m, 3526414383807705015928157810672891380225644698777070413683285027381192005767int, 11158380413694378456052458651316884395512660524131702189733524678425122150739int);
    lemma_fundamental_div_mod_converse(11158380413694378456052458651316884395512660524131702189733524678425122150739int * 3, m, 1int, 11586898369243860145910970208693378097841670415097282906511536140630140243634int);
    assert(mod_pow(3, 33724177901516581524923774394814189739490315nat, 21888242871839275222246405745257275088696311157297823662689037894645226208583nat) == 11586898369243860145910970208693378097841670415097282906511536140630140243634nat);
    lemma_fundamental_div_mod_converse(11586898369243860145910970208693378097841670415097282906511536140630140243634int * 11586898369243860145910970208693378097841670415097282906511536140630140243634int, m, 6133713638197785499069952130308777032251672127027472455090365177412408974434int, 8666250569375915410017975206835674587983126807101688386026597020463679158934int);
    assert(mod_pow(3, 67448355803033163049847548789628379478980630nat, 21888242871839275222246405745257275088696311157297823662689037894645226208583nat) == 8666250569375915410017975206835674587983126807101688386026597020463679158934nat);
    lemma_fundamental_div_mod_converse(8666250569375915410017975206835674587983126807101688386026597020463679158934int * 8666250569375915410017975206835674587983126807101688386026597020463679158934int, m, 3431243858676051698174600639152356554783851875116204506231411137876631646913int, 10162157072097851712634055550985906794169206719885685667797891835195485962077int);
    lemma_fundamental_div_mod_converse(10162157072097851712634055550985906794169206719885685667797891835195485962077int * 3, m, 1int, 8598228344454279915655760907700445293811309002359233340704637610941231677648int);
    assert(mod_pow(3, 134896711606066326099695097579256758957961261nat, 21888242871839275222246405745257275088696311157297823662689037894645226208583nat) == 8598228344454279915655760907700445293811309002359233340704637610941231677648nat);
    lemma_fundamental_div_mod_converse(8598228344454279915655760907700445293811309002359233340704637610941231677648int * 8598228344454279915655760907700445293811309002359233340704637610941231677648int, m, 3377590933006888182251116743422794532891402953126492489705306708596000543317int, 2334865838361640823408558456070741039587457501057664507717653528232614122093int);
    assert(mod_pow(3, 269793423212132652199390195158513517915922522nat, 21888242871839275222246405745257275088696311157297823662689037894645226208583nat) == 2334865838361640823408558456070741039587457501057664507717653528232614122093nat);
    lemma_fundamental_div_mod_converse(2334865838361640823408558456070741039587457501057664507717653528232614122093int * 2334865838361640823408558456070741039587457501057664507717653528232614122093int, m, 249065149499143349661561053389767677930191990660061092268998567083123180214int, 15473196627180532686657260918076394348827203267908760226897333713256448123887int);
    lemma_fundamental_div_mod_converse(15473196627180532686657260918076394348827203267908760226897333713256448123887int * 3, m, 2int, 2643104137863047615478971263714632869088987489130633355313925350478891954495int);
    assert(mod_pow(3, 539586846424265304398780390317027035831845045nat, 21888242871839275222246405745257275088696311157297823662689037894645226208583nat) == 2643104137863047615478971263714632869088987489130633355313925350478891954495nat);
    lemma_fundamental_div_mod_converse(2643104137863047615478971263714632869088987489130633355313925350478891954495int * 2643104137863047615478971263714632869088987489130633355313925350478891954495int, m, 319166756531961339137487918837147885693499709691346284672671595343961802610int, 19097010075050923310033589509202065403354543934527207969290827559616616903395int);
    assert(mod_pow(3, 1079173692848530608797560780634054071663690090nat, 21888242871839275222246405745257275088696311157297823662689037894645226208583nat) == 19097010075050923310033589509202065403354543934527207969290827559616616903395nat);
    lemma_fundamental_div_mod_converse(19097010075050923310033589509202065403354543934527207969290827559616616903395int * 19097010075050923310033589509202065403354543934527207969290827559616616903395int, m, 16661720903864905860123366720223349569055761470799119723598166066706001291720int, 10430638894463051719434626263924330295873776419164236914482212293242611693265int);
    lemma_fundamental_div_mod_converse(10430638894463051719434626263924330295873776419164236914482212293242611693265int * 3, m, 1int, 9403673811549879936057473046515715798925018100194887080757598985082608871212int);
    assert(mod_pow(3, 2158347385697061217595121561268108143327380181nat, 21888242871839275222246405745257275088696311157297823662689037894645226208583nat) == 9403673811549879936057473046515715798925018100194887080757598985082608871212nat);
    lemma_fundamental_div_mod_converse(9403673811549879936057473046515715798925018100194887080757598985082608871212int * 9403673811549879936057473046515715798925018100194887080757598985082608871212int, m, 4040026496041814351345861128450839774764929938680026976000770860010604553572int, 18402422435355209317119605663990777667384909129300386877186380599943932640468int);
    assert(mod_pow(3, 4316694771394122435190243122536216286654760362nat, 21888242871839275222246405745257275088696311157297823662689037894645226208583nat) == 18402422435355209317119605663990777667384909129300386877186380599943932640468nat);
    lemma_fundamental_div_mod_converse(18402422435355209317119605663990777667384909129300386877186380599943932640468int * 18402422435355209317119605663990777667384909129300386877186380599943932640468int, m, 15471737657158405302370613932620423338414672213458712501902525245571723749963int, 609288772681103351011804998103324342434585557438019091191367102408974726595int);
    assert(mod_pow(3, 8633389542788244870380486245072432573309520724nat, 21888242871839275222246405745257275088696311157297823662689037894645226208583nat) == 609288772681103351011804998103324342434585557438019091191367102408974726595nat);
    lemma_fundamental_div_mod_converse(609288772681103351011804998103324342434585557438019091191367102408974726595int * 609288772681103351011804998103324342434585557438019091191367102408974726595int, m, 16960375060204658426370828368190236426308121979115037827986567570343310919int, 11834431384540642768192241825317659522729589000226257384035761131513484876248int);
    lemma_fundamental_div_mod_converse(11834431384540642768192241825317659522729589000226257384035761131513484876248int * 3, m, 1int, 13615051281782653082330319730695703479492455843380948489418245499895228420161int);
    assert(mod_pow(3, 17266779085576489740760972490144865146619041449nat, 21888242871839275222246405745257275088696311157297823662689037894645226208583nat) == 13615051281782653082330319730695703479492455843380948489418245499895228420161nat);
    lemma_fundamental_div_mod_converse(13615051281782653082330319730695703479492455843380948489418245499895228420161int * 13615051281782653082330319730695703479492455843380948489418245499895228420161int, m, 8468912853852795498174086154860000335246369603372365445940181754617566131743int, 5538393876777555129455702313478798225275804415900920844144217384154575915752int);
    assert(mod_pow(3, 34533558171152979481521944980289730293238082898nat, 21888242871839275222246405745257275088696311157297823662689037894645226208583nat) == 5538393876777555129455702313478798225275804415900920844144217384154575915752nat);
    lemma_fundamental_div_mod_converse(5538393876777555129455702313478798225275804415900920844144217384154575915752int * 5538393876777555129455702313478798225275804415900920844144217384154575915752int, m, 1401382784078619275637898680209998427753842978055909756161503227613970275323int, 14922455273998334548625672241201253309876608554054426509769979234249466028195int);
    assert(mod_pow(3, 69067116342305958963043889960579460586476165796nat, 21888242871839275222246405745257275088696311157297823662689037894645226208583nat) == 14922455273998334548625672241201253309876608554054426509769979234249466028195nat);
    lemma_fundamental_div_mod_converse(14922455273998334548625672241201253309876608554054426509769979234249466028195int * 14922455273998334548625672241201253309876608554054426509769979234249466028195int, m, 10173483212349282299072796385403835546993201387107189173289395102026913450695int, 3636881879860223241953580529392311938244810596649424369978843935568178642840int);
    assert(mod_pow(3, 138134232684611917926087779921158921172952331592nat, 21888242871839275222246405745257275088696311157297823662689037894645226208583nat) == 3636881879860223241953580529392311938244810596649424369978843935568178642840nat);
    lemma_fundamental_div_mod_converse(3636881879860223241953580529392311938244810596649424369978843935568178642840int * 3636881879860223241953580529392311938244810596649424369978843935568178642840int, m, 604292902153098702387599971943056200243028273992983445998238766220319466069int, 5889572860507361420097258924028915465403206270600085914460679946772498195373int);
    lemma_fundamental_div_mod_converse(5889572860507361420097258924028915465403206270600085914460679946772498195373int * 3, m, 0int, 17668718581522084260291776772086746396209618811800257743382039840317494586119int);
    assert(mod_pow(3, 276268465369223835852175559842317842345904663185nat, 21888242871839275222246405745257275088696311157297823662689037894645226208583nat) == 17668718581522084260291776772086746396209618811800257743382039840317494586119nat);
    lemma_fundamental_div_mod_converse(17668718581522084260291776772086746396209618811800257743382039840317494586119int * 17668718581522084260291776772086746396209618811800257743382039840317494586119int, m, 14262616608419920002940631631270072689891095838790681698373659231286020717426int, 372346543898029311548303045692132101170555268176396872043190536907528614803int);
    assert(mod_pow(3, 552536930738447671704351119684635684691809326370nat, 21888242871839275222246405745257275088696311157297823662689037894645226208583nat) == 372346543898029311548303045692132101170555268176396872043190536907528614803nat);
    lemma_fundamental_div_mod_converse(372346543898029311548303045692132101170555268176396872043190536907528614803int * 372346543898029311548303045692132101170555268176396872043190536907528614803int, m, 6334083076681291735101607871515502409621398836006059908594393669249533778int, 21187182366206972491194891457941194731639421666986777358111797575732618712235int);
    lemma_fundamental_div_mod_converse(21187182366206972491194891457941194731639421666986777358111797575732618712235int * 3, m, 2int, 19785061354942367029091862883309034017525642686364684748957316937907403719539int);
    assert(mod_pow(3, 1105073861476895343408702239369271369383618652741nat, 21888242871839275222246405745257275088696311157297823662689037894645226208583nat) == 19785061354942367029091862883309034017525642686364684748957316937907403719539nat);
    lemma_fundamental_div_mod_converse(19785061354942367029091862883309034017525642686364684748957316937907403719539int * 19785061354942367029091862883309034017525642686364684748957316937907403719539int, m, 17883968809687296364824239785112902822197783933027462376841360585016089635829int, 15852320346930117076364354801765627467280548464131432876399114414785306252214int);
    lemma_fundamental_div_mod_converse(15852320346930117076364354801765627467280548464131432876399114414785306252214int * 3, m, 2int, 3780475297111800784600252914782332224449023077798651303819267455065466339476int);
    assert(mod_pow(3, 2210147722953790686817404478738542738767237305483nat, 21888242871839275222246405745257275088696311157297823662689037894645226208583nat) == 3780475297111800784600252914782332224449023077798651303819267455065466339476nat);
    lemma_fundamental_div_mod_converse(3780475297111800784600252914782332224449023077798651303819267455065466339476int * 3780475297111800784600252914782332224449023077798651303819267455065466339476int, m, 652952982829891186013441109001549702248071662324301830268917435756287479783int, 13865079957831170746318673555269267002668278683550062485203978209522377087int);
    assert(mod_pow(3, 4420295445907581373634808957477085477534474610966nat, 21888242871839275222246405745257275088696311157297823662689037894645226208583nat) == 13865079957831170746318673555269267002668278683550062485203978209522377087nat);
    lemma_fundamental_div_mod_converse(13865079957831170746318673555269267002668278683550062485203978209522377087int * 13865079957831170746318673555269267002668278683550062485203978209522377087int, m, 8782817486203158206141581289328362466526284622436768789867165110718536int, 15946198300426656079527790905780005061829410144947746532311736109788882211081int);
    lemma_fundamental_div_mod_converse(15946198300426656079527790905780005061829410144947746532311736109788882211081int * 3, m, 2int, 4062109157601417794090561226825465008095608120247592271557132540076194216077int);
    assert(mod_pow(3, 8840590891815162747269617914954170955068949221933nat, 21888242871839275222246405745257275088696311157297823662689037894645226208583nat) == 4062109157601417794090561226825465008095608120247592271557132540076194216077nat);
    lemma_fundamental_div_mod_converse(4062109157601417794090561226825465008095608120247592271557132540076194216077int * 4062109157601417794090561226825465008095608120247592271557132540076194216077int, m, 753862742883697682696492474092237618206587841145486281302658529185159972253int, 11931082372983520896593585244268687819957879430049257087627673256451894822430int);
    assert(mod_pow(3, 17681181783630325494539235829908341910137898443866nat, 21888242871839275222246405745257275088696311157297823662689037894645226208583nat) == 11931082372983520896593585244268687819957879430049257087627673256451894822430nat);
    lemma_fundamental_div_mod_converse(11931082372983520896593585244268687819957879430049257087627673256451894822430int * 11931082372983520896593585244268687819957879430049257087627673256451894822430int, m, 6503524628469014805949003630832476645824169663580546580424755877168461983499int, 12100371119988840873695279563537954205606297064467846146601904398609552932983int);
    assert(mod_pow(3, 35362363567260650989078471659816683820275796887732nat, 21888242871839275222246405745257275088696311157297823662689037894645226208583nat) == 12100371119988840873695279563537954205606297064467846146601904398609552932983nat);
    lemma_fundamental_div_mod_converse(12100371119988840873695279563537954205606297064467846146601904398609552932983int * 12100371119988840873695279563537954205606297064467846146601904398609552932983int, m, 6689389463502255399110531975527712050200477169089219815375011622696819796414int, 14672379941594610389737659973434540516883313867167993041249837528394529856927int);
    assert(mod_pow(3, 70724727134521301978156943319633367640551593775464nat, 21888242871839275222246405745257275088696311157297823662689037894645226208583nat) == 14672379941594610389737659973434540516883313867167993041249837528394529856927nat);
    lemma_fundamental_div_mod_converse(14672379941594610389737659973434540516883313867167993041249837528394529856927int * 14672379941594610389737659973434540516883313867167993041249837528394529856927int, m, 9835359302755120147481233268535063329717740303560309429978000738887063781070int, 18915249985578497808724548868514524542041257937183454780701919853742622959519int);
    assert(mod_pow(3, 141449454269042603956313886639266735281103187550928nat, 21888242871839275222246405745257275088696311157297823662689037894645226208583nat) == 18915249985578497808724548868514524542041257937183454780701919853742622959519nat);
    lemma_fundamental_div_mod_converse(18915249985578497808724548868514524542041257937183454780701919853742622959519int * 18915249985578497808724548868514524542041257937183454780701919853742622959519int, m, 16346066886768898766103525581417363646105475836304333978310923034242137867939int, 17951510732652957901806028751450152007808694978783549431976141646106190390924int);
    lemma_fundamental_div_mod_converse(17951510732652957901806028751450152007808694978783549431976141646106190390924int * 3, m, 2int, 10078046454280323260925274763835905846033462621755000970550349149028118755606int);
    assert(mod_pow(3, 282898908538085207912627773278533470562206375101857nat, 21888242871839275222246405745257275088696311157297823662689037894645226208583nat) == 10078046454280323260925274763835905846033462621755000970550349149028118755606nat);
    lemma_fundamental_div_mod_converse(10078046454280323260925274763835905846033462621755000970550349149028118755606int * 10078046454280323260925274763835905846033462621755000970550349149028118755606int, m, 4640254630274828015063198067353429495891644329572775587015120994926794438593int, 19472026232443933399753820081902563813038791594207105925541426611658553383517int);
    lemma_fundamental_div_mod_converse(19472026232443933399753820081902563813038791594207105925541426611658553383517int * 3, m, 2int, 14639592953653249754768648755193141261723752468025670451246204045685207733385int);
    assert(mod_pow(3, 565797817076170415825255546557066941124412750203715nat, 21888242871839275222246405745257275088696311157297823662689037894645226208583nat) == 14639592953653249754768648755193141261723752468025670451246204045685207733385nat);
    lemma_fundamental_div_mod_converse(14639592953653249754768648755193141261723752468025670451246204045685207733385int * 14639592953653249754768648755193141261723752468025670451246204045685207733385int, m, 9791452109862517528199580499052686123788450293393922244550923376432503129011int, 1740376815739276346632859808707439529165799926092000897408089366557599056812int);
    lemma_fundamental_div_mod_converse(1740376815739276346632859808707439529165799926092000897408089366557599056812int * 3, m, 0int, 5221130447217829039898579426122318587497399778276002692224268099672797170436int);
    assert(mod_pow(3, 1131595634152340831650511093114133882248825500407431nat, 21888242871839275222246405745257275088696311157297823662689037894645226208583nat) == 5221130447217829039898579426122318587497399778276002692224268099672797170436nat);
    lemma_fundamental_div_mod_converse(5221130447217829039898579426122318587497399778276002692224268099672797170436int * 5221130447217829039898579426122318587497399778276002692224268099672797170436int, m, 1245426748345211728482784941683245388225086567879740763682161586250056177824int, 10196028080798164258702865070485557047056715609226273325550120030552069366704int);
    assert(mod_pow(3, 2263191268304681663301022186228267764497651000814862nat, 21888242871839275222246405745257275088696311157297823662689037894645226208583nat) == 10196028080798164258702865070485557047056715609226273325550120030552069366704nat);
    lemma_fundamental_div_mod_converse(10196028080798164258702865070485557047056715609226273325550120030552069366704int * 10196028080798164258702865070485557047056715609226273325550120030552069366704int, m, 4749535594662788646796938798441300968750468585629652796251486207054250262571int, 19520981676112112671393011655232145424035703463030535421949476504637059976723int);
    assert(mod_pow(3, 4526382536609363326602044372456535528995302001629724nat, 21888242871839275222246405745257275088696311157297823662689037894645226208583nat) == 19520981676112112671393011655232145424035703463030535421949476504637059976723nat);
    lemma_fundamental_div_mod_converse(19520981676112112671393011655232145424035703463030535421949476504637059976723int * 19520981676112112671393011655232145424035703463030535421949476504637059976723int, m, 17409744940713167227788070519317141863487179794090640993377840221498697336390int, 5027642907396112798587877368119211430670612464130733170055675633948645583359int);
    assert(mod_pow(3, 9052765073218726653204088744913071057990604003259448nat, 21888242871839275222246405745257275088696311157297823662689037894645226208583nat) == 5027642907396112798587877368119211430670612464130733170055675633948645583359nat);
    lemma_fundamental_div_mod_converse(5027642907396112798587877368119211430670612464130733170055675633948645583359int * 5027642907396112798587877368119211430670612464130733170055675633948645583359int, m, 1154829711653614723390675397691883192412377653853193837169340819379805247060int, 13118113999683516645351931693039293195240502063551647550119184643084010206901int);
    lemma_fundamental_div_mod_converse(13118113999683516645351931693039293195240502063551647550119184643084010206901int * 3, m, 1int, 17466099127211274713809389333860604497025195033357118987668516034606804412120int);
    assert(mod_pow(3, 18105530146437453306408177489826142115981208006518897nat, 21888242871839275222246405745257275088696311157297823662689037894645226208583nat) == 17466099127211274713809389333860604497025195033357118987668516034606804412120nat);
    lemma_fundamental_div_mod_converse(17466099127211274713809389333860604497025195033357118987668516034606804412120int * 17466099127211274713809389333860604497025195033357118987668516034606804412120int, m, 13937373616867939402629415618291687790231455177732559759011535652956382009028int, 19604364774762953938345337310116183201767628700150288242821712938169885807076int);
    lemma_fundamental_div_mod_converse(19604364774762953938345337310116183201767628700150288242821712938169885807076int * 3, m, 2int, 15036608580610311370543200439833999427910263785855217403087063025219205004062int);
    assert(mod_pow(3, 36211060292874906612816354979652284231962416013037795nat, 21888242871839275222246405745257275088696311157297823662689037894645226208583nat) == 15036608580610311370543200439833999427910263785855217403087063025219205004062nat);
    lemma_fundamental_div_mod_converse(15036608580610311370543200439833999427910263785855217403087063025219205004062int * 15036608580610311370543200439833999427910263785855217403087063025219205004062int, m, 10329728107018415490660814916997555933122567045491043625113971196179661839881int, 12888666841234666314371247659169278540899440196884368338158895250357782601221int);
    lemma_fundamental_div_mod_converse(12888666841234666314371247659169278540899440196884368338158895250357782601221int * 3, m, 1int, 16777757651864723720867337232250560534002009433355281351787647856428121595080int);
    assert(mod_pow(3, 72422120585749813225632709959304568463924832026075591nat, 21888242871839275222246405745257275088696311157297823662689037894645226208583nat) == 16777757651864723720867337232250560534002009433355281351787647856428121595080nat);
    lemma_fundamental_div_mod_converse(16777757651864723720867337232250560534002009433355281351787647856428121595080int * 16777757651864723720867337232250560534002009433355281351787647856428121595080int, m, 12860472787738732675367652639770782232985215888627503835649318275330315895147int, 2919460768976218132973793478794059743515005391309383466566469730444900759699int);
    assert(mod_pow(3, 144844241171499626451265419918609136927849664052151182nat, 21888242871839275222246405745257275088696311157297823662689037894645226208583nat) == 2919460768976218132973793478794059743515005391309383466566469730444900759699nat);
    lemma_fundamental_div_mod_converse(2919460768976218132973793478794059743515005391309383466566469730444900759699int * 2919460768976218132973793478794059743515005391309383466566469730444900759699int, m, 389398602322571894259052879417456831412658192827387150896153145508836103756int, 6411722101419204154424257952173954809261328359414733481315945105117456832853int);
    assert(mod_pow(3, 289688482342999252902530839837218273855699328104302364nat, 21888242871839275222246405745257275088696311157297823662689037894645226208583nat) == 6411722101419204154424257952173954809261328359414733481315945105117456832853nat);
    lemma_fundamental_div_mod_converse(6411722101419204154424257952173954809261328359414733481315945105117456832853int * 6411722101419204154424257952173954809261328359414733481315945105117456832853int, m, 1878185496503173406088076051253155676142955365980657125430119942618839238742int, 10595770956911869669488210500489048149820355263300239698971129443966953597023int);
    lemma_fundamental_div_mod_converse(10595770956911869669488210500489048149820355263300239698971129443966953597023int * 3, m, 1int, 9899069998896333786218225756209869360764754632602895434224350437255634582486int);
    assert(mod_pow(3, 579376964685998505805061679674436547711398656208604729nat, 21888242871839275222246405745257275088696311157297823662689037894645226208583nat) == 9899069998896333786218225756209869360764754632602895434224350437255634582486nat);
    lemma_fundamental_div_mod_converse(9899069998896333786218225756209869360764754632602895434224350437255634582486int * 9899069998896333786218225756209869360764754632602895434224350437255634582486int, m, 4476905131984000189682226273180685156390458713726055308299166085422325069216int, 5219593839002166204650789607198691893877949597038304633780750667998809659268int);
    assert(mod_pow(3, 1158753929371997011610123359348873095422797312417209458nat, 21888242871839275222246405745257275088696311157297823662689037894645226208583nat) == 5219593839002166204650789607198691893877949597038304633780750667998809659268nat);
    lemma_fundamental_div_mod_converse(5219593839002166204650789607198691893877949597038304633780750667998809659268int * 5219593839002166204650789607198691893877949597038304633780750667998809659268int, m, 1244693783949229219320911872919800490722461634878792231480577950024886997819int, 4962746165411591127837554181966311627140012172785697605353557677291498215347int);
    lemma_fundamental_div_mod_converse(4962746165411591127837554181966311627140012172785697605353557677291498215347int * 3, m, 0int, 14888238496234773383512662545898934881420036518357092816060673031874494646041int);
    assert(mod_pow(3, 2317507858743994023220246718697746190845594624834418917nat, 21888242871839275222246405745257275088696311157297823662689037894645226208583nat) == 14888238496234773383512662545898934881420036518357092816060673031874494646041nat);
    lemma_fundamental_div_mod_converse(14888238496234773383512662545898934881420036518357092816060673031874494646041int * 14888238496234773383512662545898934881420036518357092816060673031874494646041int, m, 10126881669699827473398905332311568378958745563435999686666871727689448424625int, 20367347241606665315030094538725359707348834213582199532414760871062873417306int);
    assert(mod_pow(3, 4635015717487988046440493437395492381691189249668837834nat, 21888242871839275222246405745257275088696311157297823662689037894645226208583nat) == 20367347241606665315030094538725359707348834213582199532414760871062873417306nat);
    lemma_fundamental_div_mod_converse(20367347241606665315030094538725359707348834213582199532414760871062873417306int * 20367347241606665315030094538725359707348834213582199532414760871062873417306int, m, 18952130424040952467932133999850788285424890835572936360406981291306034004324int, 17512469164312174025873948790050873083900035801473841483717499039286472384744int);
    lemma_fundamental_div_mod_converse(17512469164312174025873948790050873083900035801473841483717499039286472384744int * 3, m, 2int, 8760921749257971633129034879638069074307485089825877125774421328568964737066int);
    assert(mod_pow(3, 9270031434975976092880986874790984763382378499337675669nat, 21888242871839275222246405745257275088696311157297823662689037894645226208583nat) == 8760921749257971633129034879638069074307485089825877125774421328568964737066nat);
    lemma_fundamental_div_mod_converse(8760921749257971633129034879638069074307485089825877125774421328568964737066int * 8760921749257971633129034879638069074307485089825877125774421328568964737066int, m, 3506619985260229266222217057394013986041703007540592987606628746275311881843int, 8123166067298537978222446884032769923670022611441883629410232061172745829887int);
    assert(mod_pow(3, 18540062869951952185761973749581969526764756998675351338nat, 21888242871839275222246405745257275088696311157297823662689037894645226208583nat) == 8123166067298537978222446884032769923670022611441883629410232061172745829887nat);
    lemma_fundamental_div_mod_converse(8123166067298537978222446884032769923670022611441883629410232061172745829887int * 8123166067298537978222446884032769923670022611441883629410232061172745829887int, m, 3014669900332917312287182218645130082231805921146339991039165061145337948449int, 2174696808959866014821781861400651223879350035323961702932637547368567095002int);
    assert(mod_pow(3, 37080125739903904371523947499163939053529513997350702676nat, 21888242871839275222246405745257275088696311157297823662689037894645226208583nat) == 2174696808959866014821781861400651223879350035323961702932637547368567095002nat);
    lemma_fundamental_div_mod_converse(2174696808959866014821781861400651223879350035323961702932637547368567095002int * 2174696808959866014821781861400651223879350035323961702932637547368567095002int, m, 216066051468425571575726507211546807300172895548085978771792403972141874718int, 9181013028346407355025450876613131800256871376095373575997408836148371075410int);
    assert(mod_pow(3, 74160251479807808743047894998327878107059027994701405352nat, 21888242871839275222246405745257275088696311157297823662689037894645226208583nat) == 9181013028346407355025450876613131800256871376095373575997408836148371075410nat);
    lemma_fundamental_div_mod_converse(9181013028346407355025450876613131800256871376095373575997408836148371075410int * 9181013028346407355025450876613131800256871376095373575997408836148371075410int, m, 3850971533905657596497532795399923049982841068750750374735706829290530005904int, 6577266048721866674566051156205389185017950533778922769877807866285381194068int);
    lemma_fundamental_div_mod_converse(6577266048721866674566051156205389185017950533778922769877807866285381194068int * 3, m, 0int, 19731798146165600023698153468616167555053851601336768309633423598856143582204int);
    assert(mod_pow(3, 148320502959615617486095789996655756214118055989402810705nat, 21888242871839275222246405745257275088696311157297823662689037894645226208583nat) == 19731798146165600023698153468616167555053851601336768309633423598856143582204nat);
    lemma_fundamental_div_mod_converse(19731798146165600023698153468616167555053851601336768309633423598856143582204int * 19731798146165600023698153468616167555053851601336768309633423598856143582204int, m, 17787807836413482540346155200057125306953696487115373168501422318558498803030int, 19011241940531501752010790502470083102039698835419097945805293941906693091126int);
    lemma_fundamental_div_mod_converse(19011241940531501752010790502470083102039698835419097945805293941906693091126int * 3, m, 2int, 13257240077915954811539560016895699128726474191661646512037806036429626856212int);
    assert(mod_pow(3, 296641005919231234972191579993311512428236111978805621411nat, 21888242871839275222246405745257275088696311157297823662689037894645226208583nat) == 13257240077915954811539560016895699128726474191661646512037806036429626856212nat);
    lemma_fundamental_div_mod_converse(13257240077915954811539560016895699128726474191661646512037806036429626856212int * 13257240077915954811539560016895699128726474191661646512037806036429626856212int, m, 8029626476304369450767388369786206505351256310330073372247130367196607920776int, 16505926378648818779643383419891290065249433331376188942408817837921207768536int);
    assert(mod_pow(3, 593282011838462469944383159986623024856472223957611242822nat, 21888242871839275222246405745257275088696311157297823662689037894645226208583nat) == 16505926378648818779643383419891290065249433331376188942408817837921207768536nat);
    lemma_fundamental_div_mod_converse(16505926378648818779643383419891290065249433331376188942408817837921207768536int * 16505926378648818779643383419891290065249433331376188942408817837921207768536int, m, 12447120913844338561937613344331770235131890824440758353461785981905266826876int, 5976628050821957008599908725042833048716465902556898502377309546912025306588int);
    lemma_fundamental_div_mod_converse(5976628050821957008599908725042833048716465902556898502377309546912025306588int * 3, m, 0int, 17929884152465871025799726175128499146149397707670695507131928640736075919764int);
    assert(mod_pow(3, 1186564023676924939888766319973246049712944447915222485645nat, 21888242871839275222246405745257275088696311157297823662689037894645226208583nat) == 17929884152465871025799726175128499146149397707670695507131928640736075919764nat);
    lemma_fundamental_div_mod_converse(17929884152465871025799726175128499146149397707670695507131928640736075919764int * 17929884152465871025799726175128499146149397707670695507131928640736075919764int, m, 14687371097040128393376973911691547494473898016241451404302153233949049226894int, 8886286611811469846852277824421428538786844937381656786827887073975628584494int);
    assert(mod_pow(3, 2373128047353849879777532639946492099425888895830444971290nat, 21888242871839275222246405745257275088696311157297823662689037894645226208583nat) == 8886286611811469846852277824421428538786844937381656786827887073975628584494nat);
    lemma_fundamental_div_mod_converse(8886286611811469846852277824421428538786844937381656786827887073975628584494int * 8886286611811469846852277824421428538786844937381656786827887073975628584494int, m, 3607694332049607314957030963563481782829158365341936526129066814053106126691int, 9077602687719012189988668326511141413451771308855762944556268912403707647183int);
    assert(mod_pow(3, 4746256094707699759555065279892984198851777791660889942580nat, 21888242871839275222246405745257275088696311157297823662689037894645226208583nat) == 9077602687719012189988668326511141413451771308855762944556268912403707647183nat);
    lemma_fundamental_div_mod_converse(9077602687719012189988668326511141413451771308855762944556268912403707647183int * 9077602687719012189988668326511141413451771308855762944556268912403707647183int, m, 3764709256863207379517741159056413998432282983745222688049534351136957099885int, 12712274811862665422269610034118099954679785365129847770288527065711832522534int);
    lemma_fundamental_div_mod_converse(12712274811862665422269610034118099954679785365129847770288527065711832522534int * 3, m, 1int, 16248581563748721044562424357097024775343044938091719648176543302490271359019int);
    assert(mod_pow(3, 9492512189415399519110130559785968397703555583321779885161nat, 21888242871839275222246405745257275088696311157297823662689037894645226208583nat) == 16248581563748721044562424357097024775343044938091719648176543302490271359019nat);
    lemma_fundamental_div_mod_converse(16248581563748721044562424357097024775343044938091719648176543302490271359019int * 16248581563748721044562424357097024775343044938091719648176543302490271359019int, m, 12062019065654193378056815344874322309857142073942214976160557419867053449585int, 14455125433284077930159634677117126029109723146976520612678175768796307854306int);
    lemma_fundamental_div_mod_converse(14455125433284077930159634677117126029109723146976520612678175768796307854306int * 3, m, 1int, 21477133428012958568232498286094102998632858283631738175345489411743697354335int);
    assert(mod_pow(3, 18985024378830799038220261119571936795407111166643559770323nat, 21888242871839275222246405745257275088696311157297823662689037894645226208583nat) == 21477133428012958568232498286094102998632858283631738175345489411743697354335nat);
    lemma_fundamental_div_mod_converse(21477133428012958568232498286094102998632858283631738175345489411743697354335int * 21477133428012958568232498286094102998632858283631738175345489411743697354335int, m, 21073745525645807081483841058647988455142233633206808926937873336847089502932int, 11286819298851058644584745908775673978336149139766723389294151811606121226869int);
    lemma_fundamental_div_mod_converse(11286819298851058644584745908775673978336149139766723389294151811606121226869int * 3, m, 1int, 11972215024713900711507831981069746846312136262002346505193417540173137472024int);
    assert(mod_pow(3, 37970048757661598076440522239143873590814222333287119540647nat, 21888242871839275222246405745257275088696311157297823662689037894645226208583nat) == 11972215024713900711507831981069746846312136262002346505193417540173137472024nat);
    lemma_fundamental_div_mod_converse(11972215024713900711507831981069746846312136262002346505193417540173137472024int * 11972215024713900711507831981069746846312136262002346505193417540173137472024int, m, 6548443995127365627587279195102541990552457898301744544773583945481088846563int, 2629808865299640490663327923468731383609698143098693427278595422448262006347int);
    lemma_fundamental_div_mod_converse(2629808865299640490663327923468731383609698143098693427278595422448262006347int * 3, m, 0int, 7889426595898921471989983770406194150829094429296080281835786267344786019041int);
    assert(mod_pow(3, 75940097515323196152881044478287747181628444666574239081295nat, 21888242871839275222246405745257275088696311157297823662689037894645226208583nat) == 7889426595898921471989983770406194150829094429296080281835786267344786019041nat);
    lemma_fundamental_div_mod_converse(7889426595898921471989983770406194150829094429296080281835786267344786019041int * 7889426595898921471989983770406194150829094429296080281835786267344786019041int, m, 2843675135392306744128860625239444450779566191965265159462012487159078930219int, 7995727774250377173181468821677903548197996113593333556486829102495818690004int);
    assert(mod_pow(3, 151880195030646392305762088956575494363256889333148478162590nat, 21888242871839275222246405745257275088696311157297823662689037894645226208583nat) == 7995727774250377173181468821677903548197996113593333556486829102495818690004nat);
    lemma_fundamental_div_mod_converse(7995727774250377173181468821677903548197996113593333556486829102495818690004int * 7995727774250377173181468821677903548197996113593333556486829102495818690004int, m, 2920822060238163597608202712147649728142410488197906941477525496241986555346int, 2924096441461178822868002859250074745737191225958120343908685047322779785298int);
    assert(mod_pow(3, 303760390061292784611524177913150988726513778666296956325180nat, 21888242871839275222246405745257275088696311157297823662689037894645226208583nat) == 2924096441461178822868002859250074745737191225958120343908685047322779785298nat);
    lemma_fundamental_div_mod_converse(2924096441461178822868002859250074745737191225958120343908685047322779785298int * 2924096441461178822868002859250074745737191225958120343908685047322779785298int, m, 390636199032976177344682881163146972560697779082766743053496117505198066254int, 7166590381721608572035094519141120784625743412161008267194633649491319490722int);
    assert(mod_pow(3, 607520780122585569223048355826301977453027557332593912650360nat, 21888242871839275222246405745257275088696311157297823662689037894645226208583nat) == 7166590381721608572035094519141120784625743412161008267194633649491319490722nat);
    lemma_fundamental_div_mod_converse(7166590381721608572035094519141120784625743412161008267194633649491319490722int * 7166590381721608572035094519141120784625743412161008267194633649491319490722int, m, 2346466000039813816731080689610983288484590576884412810651218737774927019143int, 3835074735192982229508245538020716214736128799846543094770404116161692176915int);
    assert(mod_pow(3, 1215041560245171138446096711652603954906055114665187825300720nat, 21888242871839275222246405745257275088696311157297823662689037894645226208583nat) == 3835074735192982229508245538020716214736128799846543094770404116161692176915nat);
    lemma_fundamental_div_mod_converse(3835074735192982229508245538020716214736128799846543094770404116161692176915int * 3835074735192982229508245538020716214736128799846543094770404116161692176915int, m, 671949699691888622450218909271498407171668451948431652411149880745338557580int, 12771842715130296571482541300500486880500903037568407466188396177446223208085int);
    lemma_fundamental_div_mod_converse(12771842715130296571482541300500486880500903037568407466188396177446223208085int * 3, m, 1int, 16427285273551614492201218156244185552806397955407398735876150637693443415672int);
    assert(mod_pow(3, 2430083120490342276892193423305207909812110229330375650601441nat, 21888242871839275222246405745257275088696311157297823662689037894645226208583nat) == 16427285273551614492201218156244185552806397955407398735876150637693443415672nat);
    lemma_fundamental_div_mod_converse(16427285273551614492201218156244185552806397955407398735876150637693443415672int * 16427285273551614492201218156244185552806397955407398735876150637693443415672int, m, 12328796927131761630957455297894416683559623537017060759659165326273142417208int, 15863588702252754585969262696555415891486793977415165641155417598536358715320int);
    assert(mod_pow(3, 4860166240980684553784386846610415819624220458660751301202882nat, 21888242871839275222246405745257275088696311157297823662689037894645226208583nat) == 15863588702252754585969262696555415891486793977415165641155417598536358715320nat);
    lemma_fundamental_div_mod_converse(15863588702252754585969262696555415891486793977415165641155417598536358715320int * 15863588702252754585969262696555415891486793977415165641155417598536358715320int, m, 11497197284758323055908718287403422469647196798849216916272069165303179546504int, 3043020566943416786386356090091990383050525939401981026577819138031550258568int);
    assert(mod_pow(3, 9720332481961369107568773693220831639248440917321502602405764nat, 21888242871839275222246405745257275088696311157297823662689037894645226208583nat) == 3043020566943416786386356090091990383050525939401981026577819138031550258568nat);
    lemma_fundamental_div_mod_converse(3043020566943416786386356090091990383050525939401981026577819138031550258568int * 3043020566943416786386356090091990383050525939401981026577819138031550258568int, m, 423056991146339353554654568694843005657387787151834226078380613868216793603int, 12368745689537516103612805735835804839784439090369076699631744158154919316075int);
    assert(mod_pow(3, 19440664963922738215137547386441663278496881834643005204811528nat, 21888242871839275222246405745257275088696311157297823662689037894645226208583nat) == 12368745689537516103612805735835804839784439090369076699631744158154919316075nat);
    lemma_fundamental_div_mod_converse(12368745689537516103612805735835804839784439090369076699631744158154919316075int * 12368745689537516103612805735835804839784439090369076699631744158154919316075int, m, 6989408461347059189444741344453631656969283755448352250242971030735274077539int, 3213082151032128141876883258806676405002008450356894232383755517294024088388int);
    assert(mod_pow(3, 38881329927845476430275094772883326556993763669286010409623056nat, 21888242871839275222246405745257275088696311157297823662689037894645226208583nat) == 3213082151032128141876883258806676405002008450356894232383755517294024088388nat);
    lemma_fundamental_div_mod_converse(3213082151032128141876883258806676405002008450356894232383755517294024088388int * 3213082151032128141876883258806676405002008450356894232383755517294024088388int, m, 471664033048703445340039787325832419723346594334595960365858162786308185221int, 5811619511354606638157746410726247854990629597944914002640019596469292486701int);
    assert(mod_pow(3, 77762659855690952860550189545766653113987527338572020819246112nat, 21888242871839275222246405745257275088696311157297823662689037894645226208583nat) == 5811619511354606638157746410726247854990629597944914002640019596469292486701nat);
    lemma_fundamental_div_mod_converse(5811619511354606638157746410726247854990629597944914002640019596469292486701int * 5811619511354606638157746410726247854990629597944914002640019596469292486701int, m, 1543062252302184943188998775662498388824783675331563486589402480727614619740int, 7467181714343868411999071005832341675899618616787385096100287861606792634981int);
    lemma_fundamental_div_mod_converse(7467181714343868411999071005832341675899618616787385096100287861606792634981int * 3, m, 1int, 513302271192330013750807272239749939002544693064331625611825690175151696360int);
    assert(mod_pow(3, 155525319711381905721100379091533306227975054677144041638492225nat, 21888242871839275222246405745257275088696311157297823662689037894645226208583nat) == 513302271192330013750807272239749939002544693064331625611825690175151696360nat);
    lemma_fundamental_div_mod_converse(513302271192330013750807272239749939002544693064331625611825690175151696360int * 513302271192330013750807272239749939002544693064331625611825690175151696360int, m, 12037477067206175120827338748569479794832002589041565925008900088271761172int, 3300548654124356320925016568063316670714557553891106804820599283832004710324int);
    assert(mod_pow(3, 311050639422763811442200758183066612455950109354288083276984450nat, 21888242871839275222246405745257275088696311157297823662689037894645226208583nat) == 3300548654124356320925016568063316670714557553891106804820599283832004710324nat);
    lemma_fundamental_div_mod_converse(3300548654124356320925016568063316670714557553891106804820599283832004710324int * 3300548654124356320925016568063316670714557553891106804820599283832004710324int, m, 497692824500658778139393189546297279445099908216825717691602216423815605704int, 11927061596946728389543044089060859764309693593778026764869529674623563627544int);
    assert(mod_pow(3, 622101278845527622884401516366133224911900218708576166553968900nat, 21888242871839275222246405745257275088696311157297823662689037894645226208583nat) == 11927061596946728389543044089060859764309693593778026764869529674623563627544nat);
    lemma_fundamental_div_mod_converse(11927061596946728389543044089060859764309693593778026764869529674623563627544int * 11927061596946728389543044089060859764309693593778026764869529674623563627544int, m, 6499141990076416399989035960201771555021907983233719498616923026265682796564int, 4174269529011002544541837456739197847824742024458394630569047021114135763124int);
    assert(mod_pow(3, 1244202557691055245768803032732266449823800437417152333107937800nat, 21888242871839275222246405745257275088696311157297823662689037894645226208583nat) == 4174269529011002544541837456739197847824742024458394630569047021114135763124nat);
    lemma_fundamental_div_mod_converse(4174269529011002544541837456739197847824742024458394630569047021114135763124int * 4174269529011002544541837456739197847824742024458394630569047021114135763124int, m, 796067834355382825249499989573878903516793172582270523946324398678521409967int, 982979089348660800204633555901327003723420606295103974072685304499041092615int);
    lemma_fundamental_div_mod_converse(982979089348660800204633555901327003723420606295103974072685304499041092615int * 3, m, 0int, 2948937268045982400613900667703981011170261818885311922218055913497123277845int);
    assert(mod_pow(3, 2488405115382110491537606065464532899647600874834304666215875601nat, 21888242871839275222246405745257275088696311157297823662689037894645226208583nat) == 2948937268045982400613900667703981011170261818885311922218055913497123277845nat);
    lemma_fundamental_div_mod_converse(2948937268045982400613900667703981011170261818885311922218055913497123277845int * 2948937268045982400613900667703981011170261818885311922218055913497123277845int, m, 397301467358021667867816448257747872775472983535387037948715589385550570062int, 1859563890243868615236587520953046003434113170485418671374885992238500601879int);
    lemma_fundamental_div_mod_converse(1859563890243868615236587520953046003434113170485418671374885992238500601879int * 3, m, 0int, 5578691670731605845709762562859138010302339511456256014124657976715501805637int);
    assert(mod_pow(3, 4976810230764220983075212130929065799295201749668609332431751203nat, 21888242871839275222246405745257275088696311157297823662689037894645226208583nat) == 5578691670731605845709762562859138010302339511456256014124657976715501805637nat);
    lemma_fundamental_div_mod_converse(5578691670731605845709762562859138010302339511456256014124657976715501805637int * 5578691670731605845709762562859138010302339511456256014124657976715501805637int, m, 1421850120145117984026324531407770864177299329030090925897040507165896687895int, 434745488207508896566106314993001934272005528142503580281399635839203772984int);
    assert(mod_pow(3, 9953620461528441966150424261858131598590403499337218664863502406nat, 21888242871839275222246405745257275088696311157297823662689037894645226208583nat) == 434745488207508896566106314993001934272005528142503580281399635839203772984nat);
    lemma_fundamental_div_mod_converse(434745488207508896566106314993001934272005528142503580281399635839203772984int * 434745488207508896566106314993001934272005528142503580281399635839203772984int, m, 8634938885841375347854349883955979189459208291773237475061810269260068837int, 3899262939256186282042207944930385754814006699703686243551216424085908036285int);
    assert(mod_pow(3, 19907240923056883932300848523716263197180806998674437329727004812nat, 21888242871839275222246405745257275088696311157297823662689037894645226208583nat) == 3899262939256186282042207944930385754814006699703686243551216424085908036285nat);
    lemma_fundamental_div_mod_converse(3899262939256186282042207944930385754814006699703686243551216424085908036285int * 3899262939256186282042207944930385754814006699703686243551216424085908036285int, m, 694630974193826438098217671232639997930020319080899419430125842420904610781int, 12710653416624482319288578257891976256645608784230217219900957089016940067902int);
    assert(mod_pow(3, 39814481846113767864601697047432526394361613997348874659454009624nat, 21888242871839275222246405745257275088696311157297823662689037894645226208583nat) == 12710653416624482319288578257891976256645608784230217219900957089016940067902nat);
    lemma_fundamental_div_mod_converse(12710653416624482319288578257891976256645608784230217219900957089016940067902int * 12710653416624482319288578257891976256645608784230217219900957089016940067902int, m, 7381163998568681527622291839048920478705471506270515406651278089438297527274int, 5328201080801575644951618863687490820441449243929327999446269859217315288862int);
    assert(mod_pow(3, 79628963692227535729203394094865052788723227994697749318908019248nat, 21888242871839275222246405745257275088696311157297823662689037894645226208583nat) == 5328201080801575644951618863687490820441449243929327999446269859217315288862nat);
    lemma_fundamental_div_mod_converse(5328201080801575644951618863687490820441449243929327999446269859217315288862int * 5328201080801575644951618863687490820441449243929327999446269859217315288862int, m, 1297030872860991883171958672129144618620519034340460375804928589433151016418int, 15299832442126287349060917102548179115572605384903968543571544542915575739350int);
    assert(mod_pow(3, 159257927384455071458406788189730105577446455989395498637816038496nat, 21888242871839275222246405745257275088696311157297823662689037894645226208583nat) == 15299832442126287349060917102548179115572605384903968543571544542915575739350nat);
    lemma_fundamental_div_mod_converse(15299832442126287349060917102548179115572605384903968543571544542915575739350int * 15299832442126287349060917102548179115572605384903968543571544542915575739350int, m, 10694548398780162842800977071940313092411209250095557564529278563150112758009int, 5100426019569645010071346346567482962221347528197250167835004901214700631253int);
    lemma_fundamental_div_mod_converse(5100426019569645010071346346567482962221347528197250167835004901214700631253int * 3, m, 0int, 15301278058708935030214039039702448886664042584591750503505014703644101893759int);
    assert(mod_pow(3, 318515854768910142916813576379460211154892911978790997275632076993nat, 21888242871839275222246405745257275088696311157297823662689037894645226208583nat) == 15301278058708935030214039039702448886664042584591750503505014703644101893759nat);
    lemma_fundamental_div_mod_converse(15301278058708935030214039039702448886664042584591750503505014703644101893759int * 15301278058708935030214039039702448886664042584591750503505014703644101893759int, m, 10696569459723540624205379290500479059089404368940270321770800489167298153402int, 8318178245148353603224733127956500599418736779704310369204561000420540100715int);
    assert(mod_pow(3, 637031709537820285833627152758920422309785823957581994551264153986nat, 21888242871839275222246405745257275088696311157297823662689037894645226208583nat) == 8318178245148353603224733127956500599418736779704310369204561000420540100715nat);
    lemma_fundamental_div_mod_converse(8318178245148353603224733127956500599418736779704310369204561000420540100715int * 8318178245148353603224733127956500599418736779704310369204561000420540100715int, m, 3161153214682194024529075883090194544771456164234827316614928730248924154591int, 21195179747654550359967464362904133226219772789281121049191456873902840456672int);
    lemma_fundamental_div_mod_converse(21195179747654550359967464362904133226219772789281121049191456873902840456672int * 3, m, 2int, 19809053499285100635409581598197849501266696053247715822196294832418068952850int);
    assert(mod_pow(3, 1274063419075640571667254305517840844619571647915163989102528307973nat, 21888242871839275222246405745257275088696311157297823662689037894645226208583nat) == 19809053499285100635409581598197849501266696053247715822196294832418068952850nat);
    lemma_fundamental_div_mod_converse(19809053499285100635409581598197849501266696053247715822196294832418068952850int * 19809053499285100635409581598197849501266696053247715822196294832418068952850int, m, 17927368717312022652922460985403483673676506958633920033700575333465935678611int, 3329090809321942314996196561632927593260486199342815613414112010372785404287int);
    lemma_fundamental_div_mod_converse(3329090809321942314996196561632927593260486199342815613414112010372785404287int * 3, m, 0int, 9987272427965826944988589684898782779781458598028446840242336031118356212861int);
    assert(mod_pow(3, 2548126838151281143334508611035681689239143295830327978205056615947nat, 21888242871839275222246405745257275088696311157297823662689037894645226208583nat) == 9987272427965826944988589684898782779781458598028446840242336031118356212861nat);
    lemma_fundamental_div_mod_converse(9987272427965826944988589684898782779781458598028446840242336031118356212861int * 9987272427965826944988589684898782779781458598028446840242336031118356212861int, m, 4557040559831140624370269080313973497285627587434203029634012184435671395057int, 7345751134269432652363990423210607571023500860297818105888714854103864631090int);
    assert(mod_pow(3, 5096253676302562286669017222071363378478286591660655956410113231894nat, 21888242871839275222246405745257275088696311157297823662689037894645226208583nat) == 7345751134269432652363990423210607571023500860297818105888714854103864631090nat);
    lemma_fundamental_div_mod_converse(7345751134269432652363990423210607571023500860297818105888714854103864631090int * 7345751134269432652363990423210607571023500860297818105888714854103864631090int, m, 2465253151775100773117774442422808316731437924314957985293002504074078556103int, 4594776167689375432209565644093232603524039145607468282799598505820048956051int);
    lemma_fundamental_div_mod_converse(4594776167689375432209565644093232603524039145607468282799598505820048956051int * 3, m, 0int, 13784328503068126296628696932279697810572117436822404848398795517460146868153int);
    assert(mod_pow(3, 10192507352605124573338034444142726756956573183321311912820226463789nat, 21888242871839275222246405745257275088696311157297823662689037894645226208583nat) == 13784328503068126296628696932279697810572117436822404848398795517460146868153nat);
    lemma_fundamental_div_mod_converse(13784328503068126296628696932279697810572117436822404848398795517460146868153int * 13784328503068126296628696932279697810572117436822404848398795517460146868153int, m, 8680811584238875446011079000339646565912572615980007042843605731027824478422int, 6992561919544157197630377485733444276659646716154292828231485313987810935383int);
    lemma_fundamental_div_mod_converse(6992561919544157197630377485733444276659646716154292828231485313987810935383int * 3, m, 0int, 20977685758632471592891132457200332829978940148462878484694455941963432806149int);
    assert(mod_pow(3, 20385014705210249146676068888285453513913146366642623825640452927579nat, 21888242871839275222246405745257275088696311157297823662689037894645226208583nat) == 20977685758632471592891132457200332829978940148462878484694455941963432806149nat);
    lemma_fundamental_div_mod_converse(20977685758632471592891132457200332829978940148462878484694455941963432806149int * 20977685758632471592891132457200332829978940148462878484694455941963432806149int, m, 20105008079661945564544888430652146073067571928169213860645748091182565174476int, 20123497746369285134235028177323850691022996805334668725030040438693248482693int);
    assert(mod_pow(3, 40770029410420498293352137776570907027826292733285247651280905855158nat, 21888242871839275222246405745257275088696311157297823662689037894645226208583nat) == 20123497746369285134235028177323850691022996805334668725030040438693248482693nat);
    lemma_fundamental_div_mod_converse(20123497746369285134235028177323850691022996805334668725030040438693248482693int * 20123497746369285134235028177323850691022996805334668725030040438693248482693int, m, 18501035643620908031515580741192120894726218711626818020632687710329256813901int, 1051277314039361692186598299426723621604308875253328146159032716686080619966int);
    lemma_fundamental_div_mod_converse(1051277314039361692186598299426723621604308875253328146159032716686080619966int * 3, m, 0int, 3153831942118085076559794898280170864812926625759984438477098150058241859898int);
    assert(mod_pow(3, 81540058820840996586704275553141814055652585466570495302561811710317nat, 21888242871839275222246405745257275088696311157297823662689037894645226208583nat) == 3153831942118085076559794898280170864812926625759984438477098150058241859898nat);
    lemma_fundamental_div_mod_converse(3153831942118085076559794898280170864812926625759984438477098150058241859898int * 3153831942118085076559794898280170864812926625759984438477098150058241859898int, m, 454429164431530818182322417975568417188848049481056192421638120068014141454int, 3357853580065631162022109813720981823066806660321654991951343187985989670722int);
    lemma_fundamental_div_mod_converse(3357853580065631162022109813720981823066806660321654991951343187985989670722int * 3, m, 0int, 10073560740196893486066329441162945469200419980964964975854029563957969012166int);
    assert(mod_pow(3, 163080117641681993173408551106283628111305170933140990605123623420635nat, 21888242871839275222246405745257275088696311157297823662689037894645226208583nat) == 10073560740196893486066329441162945469200419980964964975854029563957969012166nat);
    lemma_fundamental_div_mod_converse(10073560740196893486066329441162945469200419980964964975854029563957969012166int * 10073560740196893486066329441162945469200419980964964975854029563957969012166int, m, 4636124817355385781071351444098987704464653182154199812505801547375121974528int, 21707930818346291385208202197640188451336081700093699310886583872431715037732int);
    assert(mod_pow(3, 326160235283363986346817102212567256222610341866281981210247246841270nat, 21888242871839275222246405745257275088696311157297823662689037894645226208583nat) == 21707930818346291385208202197640188451336081700093699310886583872431715037732nat);
    lemma_fundamental_div_mod_converse(21707930818346291385208202197640188451336081700093699310886583872431715037732int * 21707930818346291385208202197640188451336081700093699310886583872431715037732int, m, 21529104148436869942894404731123474129675276310388926804993696468996306772466int, 19474897698491195912596543327657445729204428542181326857791737580139346428146int);
    assert(mod_pow(3, 652320470566727972693634204425134512445220683732563962420494493682540nat, 21888242871839275222246405745257275088696311157297823662689037894645226208583nat) == 19474897698491195912596543327657445729204428542181326857791737580139346428146nat);
    lemma_fundamental_div_mod_converse(19474897698491195912596543327657445729204428542181326857791737580139346428146int * 19474897698491195912596543327657445729204428542181326857791737580139346428146int, m, 17327642177008947661731780164725605815402804584426742743833521276463601453798int, 18332153993895142367765325432802086461723348749363824056148938749397955449082int);
    assert(mod_pow(3, 1304640941133455945387268408850269024890441367465127924840988987365080nat, 21888242871839275222246405745257275088696311157297823662689037894645226208583nat) == 18332153993895142367765325432802086461723348749363824056148938749397955449082nat);
    lemma_fundamental_div_mod_converse(18332153993895142367765325432802086461723348749363824056148938749397955449082int * 18332153993895142367765325432802086461723348749363824056148938749397955449082int, m, 15353807613687436281717068414687664028332814362966264615170480427859856816809int, 5708655197623308946922226439329859062003140941001574426140877269138040171077int);
    assert(mod_pow(3, 2609281882266911890774536817700538049780882734930255849681977974730160nat, 21888242871839275222246405745257275088696311157297823662689037894645226208583nat) == 5708655197623308946922226439329859062003140941001574426140877269138040171077nat);
    lemma_fundamental_div_mod_converse(5708655197623308946922226439329859062003140941001574426140877269138040171077int * 5708655197623308946922226439329859062003140941001574426140877269138040171077int, m, 1488869817288041594344225040134209449298836425424082172747187314328764098882int, 13097885776829107936768909259064169740023255892484454848172422647128058235723int);
    lemma_fundamental_div_mod_converse(13097885776829107936768909259064169740023255892484454848172422647128058235723int * 3, m, 1int, 17405414458648048588060322031935234131373456520155540881828230046738948498586int);
    assert(mod_pow(3, 5218563764533823781549073635401076099561765469860511699363955949460321nat, 21888242871839275222246405745257275088696311157297823662689037894645226208583nat) == 17405414458648048588060322031935234131373456520155540881828230046738948498586nat);
    lemma_fundamental_div_mod_converse(17405414458648048588060322031935234131373456520155540881828230046738948498586int * 17405414458648048588060322031935234131373456520155540881828230046738948498586int, m, 13840693117814335472161678238045563841302300279659423326328914527038886216576int, 617664689660542068269922116967169280677852502322686654746191202033755927588int);
    lemma_fundamental_div_mod_converse(617664689660542068269922116967169280677852502322686654746191202033755927588int * 3, m, 0int, 1852994068981626204809766350901507842033557506968059964238573606101267782764int);
    assert(mod_pow(3, 10437127529067647563098147270802152199123530939721023398727911898920643nat, 21888242871839275222246405745257275088696311157297823662689037894645226208583nat) == 1852994068981626204809766350901507842033557506968059964238573606101267782764nat);
    lemma_fundamental_div_mod_converse(1852994068981626204809766350901507842033557506968059964238573606101267782764int * 1852994068981626204809766350901507842033557506968059964238573606101267782764int, m, 156869011358542112533002689039751380403706220542290351773754458360861824149int, 643974620523084738643798920909660951063072284663122063522495955932155008829int);
    lemma_fundamental_div_mod_converse(643974620523084738643798920909660951063072284663122063522495955932155008829int * 3, m, 0int, 1931923861569254215931396762728982853189216853989366190567487867796465026487int);
    assert(mod_pow(3, 20874255058135295126196294541604304398247061879442046797455823797841287nat, 21888242871839275222246405745257275088696311157297823662689037894645226208583nat) == 1931923861569254215931396762728982853189216853989366190567487867796465026487nat);
    lemma_fundamental_div_mod_converse(1931923861569254215931396762728982853189216853989366190567487867796465026487int * 1931923861569254215931396762728982853189216853989366190567487867796465026487int, m, 170517561814089565627473734115168590470431139518128565216609646627837832517int, 8985531127890419907728134132080843916660781311414823160547189779025149667758int);
    lemma_fundamental_div_mod_converse(8985531127890419907728134132080843916660781311414823160547189779025149667758int * 3, m, 1int, 5068350511831984500937996650985256661286032776946645818952531442430222794691int);
    assert(mod_pow(3, 41748510116270590252392589083208608796494123758884093594911647595682575nat, 21888242871839275222246405745257275088696311157297823662689037894645226208583nat) == 5068350511831984500937996650985256661286032776946645818952531442430222794691nat);
    lemma_fundamental_div_mod_converse(5068350511831984500937996650985256661286032776946645818952531442430222794691int * 5068350511831984500937996650985256661286032776946645818952531442430222794691int, m, 1173606171185040149881269605652667150127538925503524475149135698211670904108int, 12004267407093884886543033919021686760753272578709827147520822504793738226517int);
    lemma_fundamental_div_mod_converse(12004267407093884886543033919021686760753272578709827147520822504793738226517int * 3, m, 1int, 14124559349442379437382696011807785193563506578831657779873429619735988470968int);
    assert(mod_pow(3, 83497020232541180504785178166417217592988247517768187189823295191365151nat, 21888242871839275222246405745257275088696311157297823662689037894645226208583nat) == 14124559349442379437382696011807785193563506578831657779873429619735988470968nat);
    lemma_fundamental_div_mod_converse(14124559349442379437382696011807785193563506578831657779873429619735988470968int * 14124559349442379437382696011807785193563506578831657779873429619735988470968int, m, 9114627335965585656822651564933724344175874659537489911003919675797700918401int, 20916011969207075424824954956631304625757058471426342271908634599760290021241int);
    assert(mod_pow(3, 166994040465082361009570356332834435185976495035536374379646590382730302nat, 21888242871839275222246405745257275088696311157297823662689037894645226208583nat) == 20916011969207075424824954956631304625757058471426342271908634599760290021241nat);
    lemma_fundamental_div_mod_converse(20916011969207075424824954956631304625757058471426342271908634599760290021241int * 20916011969207075424824954956631304625757058471426342271908634599760290021241int, m, 19986965571314135849867872388200701386207125537502912792603757421210322311935int, 14008026994544455324493929899208393038129397028564366973786873873409130841976int);
    assert(mod_pow(3, 333988080930164722019140712665668870371952990071072748759293180765460604nat, 21888242871839275222246405745257275088696311157297823662689037894645226208583nat) == 14008026994544455324493929899208393038129397028564366973786873873409130841976nat);
    lemma_fundamental_div_mod_converse(14008026994544455324493929899208393038129397028564366973786873873409130841976int * 14008026994544455324493929899208393038129397028564366973786873873409130841976int, m, 8964850281899185578925666986751164560902282458816872975686815741045961922174int, 17271951609083864176880679196497464039638817924665884580025828609473746765134int);
    lemma_fundamental_div_mod_converse(17271951609083864176880679196497464039638817924665884580025828609473746765134int * 3, m, 2int, 8039369083573042086149226098977841941523831459402006414699410039130787878236int);
    assert(mod_pow(3, 667976161860329444038281425331337740743905980142145497518586361530921209nat, 21888242871839275222246405745257275088696311157297823662689037894645226208583nat) == 8039369083573042086149226098977841941523831459402006414699410039130787878236nat);
    lemma_fundamental_div_mod_converse(8039369083573042086149226098977841941523831459402006414699410039130787878236int * 8039369083573042086149226098977841941523831459402006414699410039130787878236int, m, 2952793225127397132871192612384632336671611272642081871948601032187642969408int, 8798474168371511640177073555305740268066763101860839650493525375095066442832int);
    lemma_fundamental_div_mod_converse(8798474168371511640177073555305740268066763101860839650493525375095066442832int * 3, m, 1int, 4507179633275259698284814920659945715503978148284695288791538230639973119913int);
    assert(mod_pow(3, 1335952323720658888076562850662675481487811960284290995037172723061842419nat, 21888242871839275222246405745257275088696311157297823662689037894645226208583nat) == 4507179633275259698284814920659945715503978148284695288791538230639973119913nat);
    lemma_fundamental_div_mod_converse(4507179633275259698284814920659945715503978148284695288791538230639973119913int * 4507179633275259698284814920659945715503978148284695288791538230639973119913int, m, 928108682161395315247369350340948246459430635434515938247076557907575001677int, 6212875714710109179035805348606523019850486629888447945583927885418500333878int);
    lemma_fundamental_div_mod_converse(6212875714710109179035805348606523019850486629888447945583927885418500333878int * 3, m, 0int, 18638627144130327537107416045819569059551459889665343836751783656255501001634int);
    assert(mod_pow(3, 2671904647441317776153125701325350962975623920568581990074345446123684839nat, 21888242871839275222246405745257275088696311157297823662689037894645226208583nat) == 18638627144130327537107416045819569059551459889665343836751783656255501001634nat);
    lemma_fundamental_div_mod_converse(18638627144130327537107416045819569059551459889665343836751783656255501001634int * 18638627144130327537107416045819569059551459889665343836751783656255501001634int, m, 15871462312073653544309569664198709001006267889476978140412310854500498139220int, 17903314408198015579267981258660882942312782675649917887380770310210177744696int);
    lemma_fundamental_div_mod_converse(17903314408198015579267981258660882942312782675649917887380770310210177744696int * 3, m, 2int, 9933457480915496293311132285468098649545725712354106336764235141340080816922int);
    assert(mod_pow(3, 5343809294882635552306251402650701925951247841137163980148690892247369679nat, 21888242871839275222246405745257275088696311157297823662689037894645226208583nat) == 9933457480915496293311132285468098649545725712354106336764235141340080816922nat);
    lemma_fundamental_div_mod_converse(9933457480915496293311132285468098649545725712354106336764235141340080816922int * 9933457480915496293311132285468098649545725712354106336764235141340080816922int, m, 4508062986275904240972185724559564555006113074842187010933076266193820063800int, 20403068706909798396969007738022388896199442941604562282496460851345713958684int);
    lemma_fundamental_div_mod_converse(20403068706909798396969007738022388896199442941604562282496460851345713958684int * 3, m, 2int, 17432720377050844746414211723552616511205706510218039522111306764746689458886int);
    assert(mod_pow(3, 10687618589765271104612502805301403851902495682274327960297381784494739359nat, 21888242871839275222246405745257275088696311157297823662689037894645226208583nat) == 17432720377050844746414211723552616511205706510218039522111306764746689458886nat);
    lemma_fundamental_div_mod_converse(17432720377050844746414211723552616511205706510218039522111306764746689458886int * 17432720377050844746414211723552616511205706510218039522111306764746689458886int, m, 13884154224888997029621928472018456360336273687269353000161990127688034251704int, 10353804148741220066924753619681366363544710025412751546552094800254057185564int);
    lemma_fundamental_div_mod_converse(10353804148741220066924753619681366363544710025412751546552094800254057185564int * 3, m, 1int, 9173169574384384978527855113786824001937818918940430976967246506116945348109int);
    assert(mod_pow(3, 21375237179530542209225005610602807703804991364548655920594763568989478719nat, 21888242871839275222246405745257275088696311157297823662689037894645226208583nat) == 9173169574384384978527855113786824001937818918940430976967246506116945348109nat);
    lemma_fundamental_div_mod_converse(9173169574384384978527855113786824001937818918940430976967246506116945348109int * 9173169574384384978527855113786824001937818918940430976967246506116945348109int, m, 3844394478492941683389842570198562048448004006897608369681250633371504797698int, 17863841353813972510312582704980762594150325189794733599654745612260223633947int);
    assert(mod_pow(3, 42750474359061084418450011221205615407609982729097311841189527137978957438nat, 21888242871839275222246405745257275088696311157297823662689037894645226208583nat) == 17863841353813972510312582704980762594150325189794733599654745612260223633947nat);
    lemma_fundamental_div_mod_converse(17863841353813972510312582704980762594150325189794733599654745612260223633947int * 17863841353813972510312582704980762594150325189794733599654745612260223633947int, m, 14579371664630051006503722674437595656305560974101419395796031238436027156560int, 8559822574702439146816717108444129303879694466560465927082771332147294044329int);
    lemma_fundamental_div_mod_converse(8559822574702439146816717108444129303879694466560465927082771332147294044329int * 3, m, 1int, 3791224852268042218203745580075112822942772242383574118559276101796655924404int);
    assert(mod_pow(3, 85500948718122168836900022442411230815219965458194623682379054275957914877nat, 21888242871839275222246405745257275088696311157297823662689037894645226208583nat) == 3791224852268042218203745580075112822942772242383574118559276101796655924404nat);
    lemma_fundamental_div_mod_converse(3791224852268042218203745580075112822942772242383574118559276101796655924404int * 3791224852268042218203745580075112822942772242383574118559276101796655924404int, m, 656671527477757691406034786977443643250216414034617322867156071566919032932int, 20520580597909409563553876103978390537044495244382684920266698702736484699860int);
    assert(mod_pow(3, 171001897436244337673800044884822461630439930916389247364758108551915829754nat, 21888242871839275222246405745257275088696311157297823662689037894645226208583nat) == 20520580597909409563553876103978390537044495244382684920266698702736484699860nat);
    lemma_fundamental_div_mod_converse(20520580597909409563553876103978390537044495244382684920266698702736484699860int * 20520580597909409563553876103978390537044495244382684920266698702736484699860int, m, 19238375165192574187723618662002260794851789269174481269317491116351300489923int, 2711794849043810499446048604525008340564745461474921080607002591506596410491int);
    lemma_fundamental_div_mod_converse(2711794849043810499446048604525008340564745461474921080607002591506596410491int * 3, m, 0int, 8135384547131431498338145813575025021694236384424763241821007774519789231473int);
    assert(mod_pow(3, 342003794872488675347600089769644923260879861832778494729516217103831659509nat, 21888242871839275222246405745257275088696311157297823662689037894645226208583nat) == 8135384547131431498338145813575025021694236384424763241821007774519789231473nat);
    lemma_fundamental_div_mod_converse(8135384547131431498338145813575025021694236384424763241821007774519789231473int * 8135384547131431498338145813575025021694236384424763241821007774519789231473int, m, 3023745766950336571381048487701739736495589891009414241070225974712087287734int, 19382888966070477739597629223917750850378537100948731114884679476531352328807int);
    assert(mod_pow(3, 684007589744977350695200179539289846521759723665556989459032434207663319018nat, 21888242871839275222246405745257275088696311157297823662689037894645226208583nat) == 19382888966070477739597629223917750850378537100948731114884679476531352328807nat);
    lemma_fundamental_div_mod_converse(19382888966070477739597629223917750850378537100948731114884679476531352328807int * 19382888966070477739597629223917750850378537100948731114884679476531352328807int, m, 17164300801613263549592758563706696219518957834822151243195594745027385247649int, 20818684810868523036523422214813601703475020692274229492534440539951457671882int);
    assert(mod_pow(3, 1368015179489954701390400359078579693043519447331113978918064868415326638036nat, 21888242871839275222246405745257275088696311157297823662689037894645226208583nat) == 20818684810868523036523422214813601703475020692274229492534440539951457671882nat);
    lemma_fundamental_div_mod_converse(20818684810868523036523422214813601703475020692274229492534440539951457671882int * 20818684810868523036523422214813601703475020692274229492534440539951457671882int, m, 19801390170606579370851736732459899610829491463139868076904001604361752450140int, 14592161914559516814830937163504850059081558519237952668785816037672625870304int);
    assert(mod_pow(3, 2736030358979909402780800718157159386087038894662227957836129736830653276072nat, 21888242871839275222246405745257275088696311157297823662689037894645226208583nat) == 14592161914559516814830937163504850059081558519237952668785816037672625870304nat);
    lemma_fundamental_div_mod_converse(14592161914559516814830937163504850059081558519237952668785816037672625870304int * 14592161914559516814830937163504850059081558519237952668785816037672625870304int, m, 9728107943039677876553958109003233372688161955740459708297071208165622845479int, 14592161914559516815320706160204432708335008269937607335342531765070196506159int);
    lemma_fundamental_div_mod_converse(14592161914559516815320706160204432708335008269937607335342531765070196506159int * 3, m, 2int, 1469306990098747947612402495217174680649519505920137101311int);
    assert(mod_pow(3, 5472060717959818805561601436314318772174077789324455915672259473661306552145nat, 21888242871839275222246405745257275088696311157297823662689037894645226208583nat) == 1469306990098747947612402495217174680649519505920137101311nat);
    lemma_fundamental_div_mod_converse(1469306990098747947612402495217174680649519505920137101311int * 1469306990098747947612402495217174680649519505920137101311int, m, 98631171254526212680418450848383204169int, 7296080957279758407415468581752425029565437052432607887563012631548408736194int);
    lemma_fundamental_div_mod_converse(7296080957279758407415468581752425029565437052432607887563012631548408736194int * 3, m, 0int, 21888242871839275222246405745257275088696311157297823662689037894645226208582int);
    assert(mod_pow(3, 10944121435919637611123202872628637544348155578648911831344518947322613104291nat, 21888242871839275222246405745257275088696311157297823662689037894645226208583nat) == 21888242871839275222246405745257275088696311157297823662689037894645226208582nat);
    lemma_fundamental_div_mod_converse(21888242871839275222246405745257275088696311157297823662689037894645226208582int * 21888242871839275222246405745257275088696311157297823662689037894645226208582int, m, 21888242871839275222246405745257275088696311157297823662689037894645226208581int, 1int);
    assert(mod_pow(3, 21888242871839275222246405745257275088696311157297823662689037894645226208582nat, 21888242871839275222246405745257275088696311157297823662689037894645226208583nat) == 1);
}

#[verifier::rlimit(100)]
pub proof fn lemma_pow_base_modulus_by_2()
    ensures
        mod_pow(3, 10944121435919637611123202872628637544348155578648911831344518947322613104291nat, 21888242871839275222246405745257275088696311157297823662689037894645226208583nat) == 21888242871839275222246405745257275088696311157297823662689037894645226208582nat,
{
    let m = 21888242871839275222246405745257275088696311157297823662689037894645226208583int;
    lemma_fundamental_div_mod_converse(1, m, 0, 1);
    assert(mod_pow(3, 0, 21888242871839275222246405745257275088696311157297823662689037894645226208583nat) == 1);
    lemma_fundamental_div_mod_converse(1int * 1int, m, 0int, 1int);
    lemma_fundamental_div_mod_converse(1int * 3, m, 0int, 3int);
    assert(mod_pow(3, 1, 21888242871839275222246405745257275088696311157297823662689037894645226208583nat) == 3);
    lemma_fundamental_div_mod_converse(3int * 3int, m, 0int, 9int);
    lemma_fundamental_div_mod_converse(9int * 3, m, 0int, 27int);
    assert(mod_pow(3, 3, 21888242871839275222246405745257275088696311157297823662689037894645226208583nat) == 27);
    lemma_fundamental_div_mod_converse(27int * 27int, m, 0int, 729int);
    assert(mod_pow(3, 6, 21888242871839275222246405745257275088696311157297823662689037894645226208583nat) == 729);
    lemma_fundamental_div_mod_converse(729int * 729int, m, 0int, 531441int);
    assert(mod_pow(3, 12, 21888242871839275222246405745257275088696311157297823662689037894645226208583nat) == 531441);
    lemma_fundamental_div_mod_converse(531441int * 531441int, m, 0int, 282429536481int);
    assert(mod_pow(3, 24, 21888242871839275222246405745257275088696311157297823662689037894645226208583nat) == 282429536481);
    lemma_fundamental_div_mod_converse(282429536481int * 282429536481int, m, 0int, 79766443076872509863361int);
    assert(mod_pow(3, 48, 21888242871839275222246405745257275088696311157297823662689037894645226208583nat) == 79766443076872509863361nat);
    lemma_fundamental_div_mod_converse(79766443076872509863361int * 79766443076872509863361int, m, 0int, 6362685441135942358474828762538534230890216321int);
    assert(mod_pow(3, 96, 21888242871839275222246405745257275088696311157297823662689037894645226208583nat) == 6362685441135942358474828762538534230890216321nat);
    lemma_fundamental_div_mod_converse(6362685441135942358474828762538534230890216321int * 6362685441135942358474828762538534230890216321int, m, 1849566740459026int, 2761922516890432007361501793849997429896015701843940833222919981823133754883int);
    lemma_fundamental_div_mod_converse(2761922516890432007361501793849997429896015701843940833222919981823133754883int * 3, m, 0int, 8285767550671296022084505381549992289688047105531822499668759945469401264649int);
    assert(mod_pow(3, 193, 21888242871839275222246405745257275088696311157297823662689037894645226208583nat) == 8285767550671296022084505381549992289688047105531822499668759945469401264649nat);
    lemma_fundamental_div_mod_converse(8285767550671296022084505381549992289688047105531822499668759945469401264649int * 8285767550671296022084505381549992289688047105531822499668759945469401264649int, m, 3136567165566561434192281430863412931318817755319138550781983270268737924348int, 18603043702591589390385410088301215858442106781483037674018514312555414814317int);
    lemma_fundamental_div_mod_converse(18603043702591589390385410088301215858442106781483037674018514312555414814317int * 3, m, 2int, 12032645364096217726663418774389097397933698029853465696677467148375792025785int);
    assert(mod_pow(3, 387, 21888242871839275222246405745257275088696311157297823662689037894645226208583nat) == 12032645364096217726663418774389097397933698029853465696677467148375792025785nat);
    lemma_fundamental_div_mod_converse(12032645364096217726663418774389097397933698029853465696677467148375792025785int * 12032645364096217726663418774389097397933698029853465696677467148375792025785int, m, 6614718015779213304790146066325756887916539292568651009981558566714037074646int, 10720926162174915799133957941839790476087088477684948206570027040058967979607int);
    assert(mod_pow(3, 774, 21888242871839275222246405745257275088696311157297823662689037894645226208583nat) == 10720926162174915799133957941839790476087088477684948206570027040058967979607nat);
    lemma_fundamental_div_mod_converse(10720926162174915799133957941839790476087088477684948206570027040058967979607int * 10720926162174915799133957941839790476087088477684948206570027040058967979607int, m, 5251141375202964145393350171728876023445322767868516593038976869801160674503int, 653705856699061519562630644377102924487433399565900283391621394561920015200int);
    assert(mod_pow(3, 1548, 21888242871839275222246405745257275088696311157297823662689037894645226208583nat) == 653705856699061519562630644377102924487433399565900283391621394561920015200nat);
    lemma_fundamental_div_mod_converse(653705856699061519562630644377102924487433399565900283391621394561920015200int * 653705856699061519562630644377102924487433399565900283391621394561920015200int, m, 19523328098320995144657702883942151387390549417356662082565548524685489044int, 3678337777561861888972588092047543937707089433572497562608120467990925775348int);
    lemma_fundamental_div_mod_converse(3678337777561861888972588092047543937707089433572497562608120467990925775348int * 3, m, 0int, 11035013332685585666917764276142631813121268300717492687824361403972777326044int);
    assert(mod_pow(3, 3097, 21888242871839275222246405745257275088696311157297823662689037894645226208583nat) == 11035013332685585666917764276142631813121268300717492687824361403972777326044nat);
    lemma_fundamental_div_mod_converse(11035013332685585666917764276142631813121268300717492687824361403972777326044int * 11035013332685585666917764276142631813121268300717492687824361403972777326044int, m, 5563330047347749530181253373568043955882891119518715358240783492372334241263int, 6668933299697619710003086423277124683035548477328100854015942755561197329607int);
    assert(mod_pow(3, 6194, 21888242871839275222246405745257275088696311157297823662689037894645226208583nat) == 6668933299697619710003086423277124683035548477328100854015942755561197329607nat);
    lemma_fundamental_div_mod_converse(6668933299697619710003086423277124683035548477328100854015942755561197329607int * 6668933299697619710003086423277124683035548477328100854015942755561197329607int, m, 2031897746028553769023243984658149690394124114342284455369376416748077376135int, 2924210066484398764618150207140168490436410784917964781657369979722942407744int);
    assert(mod_pow(3, 12388, 21888242871839275222246405745257275088696311157297823662689037894645226208583nat) == 2924210066484398764618150207140168490436410784917964781657369979722942407744nat);
    lemma_fundamental_div_mod_converse(2924210066484398764618150207140168490436410784917964781657369979722942407744int * 2924210066484398764618150207140168490436410784917964781657369979722942407744int, m, 390666558434900467734702685724686773713473426211165378751105793224126444685int, 4125388266795915217526829947128526978978935773561165958221388810401929438181int);
    assert(mod_pow(3, 24776, 21888242871839275222246405745257275088696311157297823662689037894645226208583nat) == 4125388266795915217526829947128526978978935773561165958221388810401929438181nat);
    lemma_fundamental_div_mod_converse(4125388266795915217526829947128526978978935773561165958221388810401929438181int * 4125388266795915217526829947128526978978935773561165958221388810401929438181int, m, 777532872394855165831207316457244130854678672873116453350535085143481912084int, 571910321924607321406835774659625359948200508870808804367146711295648371789int);
    lemma_fundamental_div_mod_converse(571910321924607321406835774659625359948200508870808804367146711295648371789int * 3, m, 0int, 1715730965773821964220507323978876079844601526612426413101440133886945115367int);
    assert(mod_pow(3, 49553, 21888242871839275222246405745257275088696311157297823662689037894645226208583nat) == 1715730965773821964220507323978876079844601526612426413101440133886945115367nat);
    lemma_fundamental_div_mod_converse(1715730965773821964220507323978876079844601526612426413101440133886945115367int * 1715730965773821964220507323978876079844601526612426413101440133886945115367int, m, 134489221640650094970206286608683405143005797004468363264303814777223479586int, 19583572409628956779026665223435416673499611377620110436708458894419461058051int);
    assert(mod_pow(3, 99106, 21888242871839275222246405745257275088696311157297823662689037894645226208583nat) == 19583572409628956779026665223435416673499611377620110436708458894419461058051nat);
    lemma_fundamental_div_mod_converse(19583572409628956779026665223435416673499611377620110436708458894419461058051int * 19583572409628956779026665223435416673499611377620110436708458894419461058051int, m, 17521566741047109048642019011048228275188005698743578123864498303079612689751int, 2821547709732768266239841725367802956709392310885588798509937403131999585768int);
    assert(mod_pow(3, 198212, 21888242871839275222246405745257275088696311157297823662689037894645226208583nat) == 2821547709732768266239841725367802956709392310885588798509937403131999585768nat);
    lemma_fundamental_div_mod_converse(2821547709732768266239841725367802956709392310885588798509937403131999585768int * 2821547709732768266239841725367802956709392310885588798509937403131999585768int, m, 363717248794820860994898987529718014601883018189712143965951338684754415732int, 8883652848868344148952897563767129560194885697467908261228073715697859522068int);
    lemma_fundamental_div_mod_converse(8883652848868344148952897563767129560194885697467908261228073715697859522068int * 3, m, 1int, 4762715674765757224612286946044113591888345935105901120995183252448352357621int);
    assert(mod_pow(3, 396425, 21888242871839275222246405745257275088696311157297823662689037894645226208583nat) == 4762715674765757224612286946044113591888345935105901120995183252448352357621nat);
    lemma_fundamental_div_mod_converse(4762715674765757224612286946044113591888345935105901120995183252448352357621int * 4762715674765757224612286946044113591888345935105901120995183252448352357621int, m, 1036330816113305698016413684234453729054792196380861639579231074862079576203int, 17109166418141596987280894953057368737579223755168404942244282494007955629292int);
    lemma_fundamental_div_mod_converse(17109166418141596987280894953057368737579223755168404942244282494007955629292int * 3, m, 2int, 7551013510746240517349873368657556035345048950909567501354771692733414470710int);
    assert(mod_pow(3, 792851, 21888242871839275222246405745257275088696311157297823662689037894645226208583nat) == 7551013510746240517349873368657556035345048950909567501354771692733414470710nat);
    lemma_fundamental_div_mod_converse(7551013510746240517349873368657556035345048950909567501354771692733414470710int * 7551013510746240517349873368657556035345048950909567501354771692733414470710int, m, 2604951223052700087171142573253673222992444300546451548970745299377868382698int, 12255375975749110201802936845444661585188039821233755179271825246208831607166int);
    lemma_fundamental_div_mod_converse(12255375975749110201802936845444661585188039821233755179271825246208831607166int * 3, m, 1int, 14877885055408055383162404791076709666867808306403441875126437843981268612915int);
    assert(mod_pow(3, 1585703, 21888242871839275222246405745257275088696311157297823662689037894645226208583nat) == 14877885055408055383162404791076709666867808306403441875126437843981268612915nat);
    lemma_fundamental_div_mod_converse(14877885055408055383162404791076709666867808306403441875126437843981268612915int * 14877885055408055383162404791076709666867808306403441875126437843981268612915int, m, 10112801882636188478498705773919177795272747312110419512305185521129486854359int, 20716970516021300426857017460276015645329027075114320559021256593731428033928int);
    assert(mod_pow(3, 3171406, 21888242871839275222246405745257275088696311157297823662689037894645226208583nat) == 20716970516021300426857017460276015645329027075114320559021256593731428033928nat);
    lemma_fundamental_div_mod_converse(20716970516021300426857017460276015645329027075114320559021256593731428033928int * 20716970516021300426857017460276015645329027075114320559021256593731428033928int, m, 19608374682002542545125712150488481201984535787805674777544713457032112530407int, 4465215126731577662207498208133157365398891936010028698363252892264607225903int);
    assert(mod_pow(3, 6342812, 21888242871839275222246405745257275088696311157297823662689037894645226208583nat) == 4465215126731577662207498208133157365398891936010028698363252892264607225903nat);
    lemma_fundamental_div_mod_converse(4465215126731577662207498208133157365398891936010028698363252892264607225903int * 4465215126731577662207498208133157365398891936010028698363252892264607225903int, m, 910906656360446859386360314639170037362586955296927357522572959894329974744int, 680014379036013699969636768749552049410481515580417146447511892880008137657int);
    lemma_fundamental_div_mod_converse(680014379036013699969636768749552049410481515580417146447511892880008137657int * 3, m, 0int, 2040043137108041099908910306248656148231444546741251439342535678640024412971int);
    assert(mod_pow(3, 12685625, 21888242871839275222246405745257275088696311157297823662689037894645226208583nat) == 2040043137108041099908910306248656148231444546741251439342535678640024412971nat);
    lemma_fundamental_div_mod_converse(2040043137108041099908910306248656148231444546741251439342535678640024412971int * 2040043137108041099908910306248656148231444546741251439342535678640024412971int, m, 190137510152357998142727296242940066738180459989911175557221265924290111954int, 2170494657165010956234972507130061560274723222406649901820500937037127345659int);
    lemma_fundamental_div_mod_converse(2170494657165010956234972507130061560274723222406649901820500937037127345659int * 3, m, 0int, 6511483971495032868704917521390184680824169667219949705461502811111382036977int);
    assert(mod_pow(3, 25371251, 21888242871839275222246405745257275088696311157297823662689037894645226208583nat) == 6511483971495032868704917521390184680824169667219949705461502811111382036977nat);
    lemma_fundamental_div_mod_converse(6511483971495032868704917521390184680824169667219949705461502811111382036977int * 6511483971495032868704917521390184680824169667219949705461502811111382036977int, m, 1937086670652146802679881630897267588003219652083737549790746307341312610316int, 6102347411660706776919057552928001875781188047150148598366733874386181756301int);
    lemma_fundamental_div_mod_converse(6102347411660706776919057552928001875781188047150148598366733874386181756301int * 3, m, 0int, 18307042234982120330757172658784005627343564141450445795100201623158545268903int);
    assert(mod_pow(3, 50742503, 21888242871839275222246405745257275088696311157297823662689037894645226208583nat) == 18307042234982120330757172658784005627343564141450445795100201623158545268903nat);
    lemma_fundamental_div_mod_converse(18307042234982120330757172658784005627343564141450445795100201623158545268903int * 18307042234982120330757172658784005627343564141450445795100201623158545268903int, m, 15311772505257137789035075316682306441750551066869164849298784248078489078237int, 1161252620224752131198444720694685948169763521015709717810937601490610915238int);
    assert(mod_pow(3, 101485006, 21888242871839275222246405745257275088696311157297823662689037894645226208583nat) == 1161252620224752131198444720694685948169763521015709717810937601490610915238nat);
    lemma_fundamental_div_mod_converse(1161252620224752131198444720694685948169763521015709717810937601490610915238int * 1161252620224752131198444720694685948169763521015709717810937601490610915238int, m, 61608766673262746213523560517275655480572598323446553237010129969915988112int, 8044012535326186770422519615466388313535171112987799882860729238128160231348int);
    assert(mod_pow(3, 202970012, 21888242871839275222246405745257275088696311157297823662689037894645226208583nat) == 8044012535326186770422519615466388313535171112987799882860729238128160231348nat);
    lemma_fundamental_div_mod_converse(8044012535326186770422519615466388313535171112987799882860729238128160231348int * 8044012535326186770422519615466388313535171112987799882860729238128160231348int, m, 2956205212421765866767504547278336996473601576916114222444387963958606481247int, 16991940699206253696817722091603681759404194695319854350446664882080381954103int);
    lemma_fundamental_div_mod_converse(16991940699206253696817722091603681759404194695319854350446664882080381954103int * 3, m, 2int, 7199336353940210645960354784296495100819961771363915725961918856950693445143int);
    assert(mod_pow(3, 405940025, 21888242871839275222246405745257275088696311157297823662689037894645226208583nat) == 7199336353940210645960354784296495100819961771363915725961918856950693445143nat);
    lemma_fundamental_div_mod_converse(7199336353940210645960354784296495100819961771363915725961918856950693445143int * 7199336353940210645960354784296495100819961771363915725961918856950693445143int, m, 2367958188359127940935514404225558558214861668648965922145731680283973913673int, 2637823550896316422185925106304998154841836042077540550884513696160416635090int);
    assert(mod_pow(3, 811880050, 21888242871839275222246405745257275088696311157297823662689037894645226208583nat) == 2637823550896316422185925106304998154841836042077540550884513696160416635090nat);
    lemma_fundamental_div_mod_converse(2637823550896316422185925106304998154841836042077540550884513696160416635090int * 2637823550896316422185925106304998154841836042077540550884513696160416635090int, m, 317892721055984857546501326830315372430377504887410558193500858623836183364int, 9179822483718155549514557027011851069159586852771610996870567094755320694888int);
    lemma_fundamental_div_mod_converse(9179822483718155549514557027011851069159586852771610996870567094755320694888int * 3, m, 1int, 5651224579315191426297265335778278118782449401017009327922663389620735876081int);
    assert(mod_pow(3, 1623760101, 21888242871839275222246405745257275088696311157297823662689037894645226208583nat) == 5651224579315191426297265335778278118782449401017009327922663389620735876081nat);
    lemma_fundamental_div_mod_converse(5651224579315191426297265335778278118782449401017009327922663389620735876081int * 5651224579315191426297265335778278118782449401017009327922663389620735876081int, m, 1459063636713591652374316467352903182936613754001577463465598022208840879061int, 7881684199080873353922476392626699313477713521535170163018055918376724737998int);
    lemma_fundamental_div_mod_converse(7881684199080873353922476392626699313477713521535170163018055918376724737998int * 3, m, 1int, 1756809725403344839521023432622822851736829407307686826365129860484948005411int);
    assert(mod_pow(3, 3247520203, 21888242871839275222246405745257275088696311157297823662689037894645226208583nat) == 1756809725403344839521023432622822851736829407307686826365129860484948005411nat);
    lemma_fundamental_div_mod_converse(1756809725403344839521023432622822851736829407307686826365129860484948005411int * 1756809725403344839521023432622822851736829407307686826365129860484948005411int, m, 141006312354228116341593510906300771739412747793656648766650565791391212709int, 3527384038925210195244401278427298375321968146820813302463366948976730797574int);
    lemma_fundamental_div_mod_converse(3527384038925210195244401278427298375321968146820813302463366948976730797574int * 3, m, 0int, 10582152116775630585733203835281895125965904440462439907390100846930192392722int);
    assert(mod_pow(3, 6495040407, 21888242871839275222246405745257275088696311157297823662689037894645226208583nat) == 10582152116775630585733203835281895125965904440462439907390100846930192392722nat);
    lemma_fundamental_div_mod_converse(10582152116775630585733203835281895125965904440462439907390100846930192392722int * 10582152116775630585733203835281895125965904440462439907390100846930192392722int, m, 5116077342446314186646529208601324740553117588292200666916196484360062894151int, 17167412223861677053247147616459908008652566569799333806423576891407701871251int);
    assert(mod_pow(3, 12990080814, 21888242871839275222246405745257275088696311157297823662689037894645226208583nat) == 17167412223861677053247147616459908008652566569799333806423576891407701871251nat);
    lemma_fundamental_div_mod_converse(17167412223861677053247147616459908008652566569799333806423576891407701871251int * 17167412223861677053247147616459908008652566569799333806423576891407701871251int, m, 13464764814135577242254672452216071681626456287940837818514698101750937414345int, 8726091675795004014072034383719206010804209726337529389273846049621313981866int);
    assert(mod_pow(3, 25980161628, 21888242871839275222246405745257275088696311157297823662689037894645226208583nat) == 8726091675795004014072034383719206010804209726337529389273846049621313981866nat);
    lemma_fundamental_div_mod_converse(8726091675795004014072034383719206010804209726337529389273846049621313981866int * 8726091675795004014072034383719206010804209726337529389273846049621313981866int, m, 3478793449991557172780977719698920890415892342870340783638208675833070338696int, 14684171908361036228633735226317062581451336115366268216447139061408424614188int);
    assert(mod_pow(3, 51960323256, 21888242871839275222246405745257275088696311157297823662689037894645226208583nat) == 14684171908361036228633735226317062581451336115366268216447139061408424614188nat);
    lemma_fundamental_div_mod_converse(14684171908361036228633735226317062581451336115366268216447139061408424614188int * 14684171908361036228633735226317062581451336115366268216447139061408424614188int, m, 9851174710406545073291518044777046422338329777990793366008542939455370345842int, 1532302758983705752826256643750561364860023895811423031463796476853512137458int);
    assert(mod_pow(3, 103920646512, 21888242871839275222246405745257275088696311157297823662689037894645226208583nat) == 1532302758983705752826256643750561364860023895811423031463796476853512137458nat);
    lemma_fundamental_div_mod_converse(1532302758983705752826256643750561364860023895811423031463796476853512137458int * 1532302758983705752826256643750561364860023895811423031463796476853512137458int, m, 107269996908243260633930243293608539600757000180042574534585127268377763487int, 13982452012096332566090422588233120196088881117382646459230476582421783292843int);
    lemma_fundamental_div_mod_converse(13982452012096332566090422588233120196088881117382646459230476582421783292843int * 3, m, 1int, 20059113164449722476024862019442085499570332194850115715002391852620123669946int);
    assert(mod_pow(3, 207841293025, 21888242871839275222246405745257275088696311157297823662689037894645226208583nat) == 20059113164449722476024862019442085499570332194850115715002391852620123669946nat);
    lemma_fundamental_div_mod_converse(20059113164449722476024862019442085499570332194850115715002391852620123669946int * 20059113164449722476024862019442085499570332194850115715002391852620123669946int, m, 18382837914407199771884441920088962816547095828390089314042108206080876662754int, 12260769873075540860541594523444723236950209416138760497408651365686192425334int);
    assert(mod_pow(3, 415682586050, 21888242871839275222246405745257275088696311157297823662689037894645226208583nat) == 12260769873075540860541594523444723236950209416138760497408651365686192425334nat);
    lemma_fundamental_div_mod_converse(12260769873075540860541594523444723236950209416138760497408651365686192425334int * 12260769873075540860541594523444723236950209416138760497408651365686192425334int, m, 6867909807137700039890502035289712998964359771170439209877690415561540610759int, 15710775630475212692876095929295991737827532099417490717393753669345417067059int);
    assert(mod_pow(3, 831365172100, 21888242871839275222246405745257275088696311157297823662689037894645226208583nat) == 15710775630475212692876095929295991737827532099417490717393753669345417067059nat);
    lemma_fundamental_div_mod_converse(15710775630475212692876095929295991737827532099417490717393753669345417067059int * 15710775630475212692876095929295991737827532099417490717393753669345417067059int, m, 11276760421399360635774320199453148881892012438926918132209860696171146075263int, 4384753955356078971416951511502612462421270033479042056033026011835448327152int);
    lemma_fundamental_div_mod_converse(4384753955356078971416951511502612462421270033479042056033026011835448327152int * 3, m, 0int, 13154261866068236914250854534507837387263810100437126168099078035506344981456int);
    assert(mod_pow(3, 1662730344201, 21888242871839275222246405745257275088696311157297823662689037894645226208583nat) == 13154261866068236914250854534507837387263810100437126168099078035506344981456nat);
    lemma_fundamental_div_mod_converse(13154261866068236914250854534507837387263810100437126168099078035506344981456int * 13154261866068236914250854534507837387263810100437126168099078035506344981456int, m, 7905367564415958426816881467506155145089964239595439476906728003092662276669int, 7171603078113290346511657473701599128199493435796100055162803876869135429909int);
    lemma_fundamental_div_mod_converse(7171603078113290346511657473701599128199493435796100055162803876869135429909int * 3, m, 0int, 21514809234339871039534972421104797384598480307388300165488411630607406289727int);
    assert(mod_pow(3, 3325460688403, 21888242871839275222246405745257275088696311157297823662689037894645226208583nat) == 21514809234339871039534972421104797384598480307388300165488411630607406289727nat);
    lemma_fundamental_div_mod_converse(21514809234339871039534972421104797384598480307388300165488411630607406289727int * 21514809234339871039534972421104797384598480307388300165488411630607406289727int, m, 21147746719567520102539170663680684941266272215868224743437690756712987402106int, 1511276980661715942496272677285772740875930659541551532180529079623016258731int);
    assert(mod_pow(3, 6650921376806, 21888242871839275222246405745257275088696311157297823662689037894645226208583nat) == 1511276980661715942496272677285772740875930659541551532180529079623016258731nat);
    lemma_fundamental_div_mod_converse(1511276980661715942496272677285772740875930659541551532180529079623016258731int * 1511276980661715942496272677285772740875930659541551532180529079623016258731int, m, 104346343635306660796599648219298606605066823952983055469933547497771803095int, 1822488851241516275301322618364631226576347226278706963507607059661858765976int);
    assert(mod_pow(3, 13301842753612, 21888242871839275222246405745257275088696311157297823662689037894645226208583nat) == 1822488851241516275301322618364631226576347226278706963507607059661858765976nat);
    lemma_fundamental_div_mod_converse(1822488851241516275301322618364631226576347226278706963507607059661858765976int * 1822488851241516275301322618364631226576347226278706963507607059661858765976int, m, 151746562405560421621369242554047535221765807955631218842082160659847642772int, 4999346056887412793414245782437888801158210660271461422532901031066190920500int);
    assert(mod_pow(3, 26603685507224, 21888242871839275222246405745257275088696311157297823662689037894645226208583nat) == 4999346056887412793414245782437888801158210660271461422532901031066190920500nat);
    lemma_fundamental_div_mod_converse(4999346056887412793414245782437888801158210660271461422532901031066190920500int * 4999346056887412793414245782437888801158210660271461422532901031066190920500int, m, 1141866943950604786818862338746835191341319459732818543391008008583524056804int, 3813738035041190756432063445894441113105542325761877639458430728021275901268int);
    lemma_fundamental_div_mod_converse(3813738035041190756432063445894441113105542325761877639458430728021275901268int * 3, m, 0int, 11441214105123572269296190337683323339316626977285632918375292184063827703804int);
    assert(mod_pow(3, 53207371014449, 21888242871839275222246405745257275088696311157297823662689037894645226208583nat) == 11441214105123572269296190337683323339316626977285632918375292184063827703804nat);
    lemma_fundamental_div_mod_converse(11441214105123572269296190337683323339316626977285632918375292184063827703804int * 11441214105123572269296190337683323339316626977285632918375292184063827703804int, m, 5980442604083682881127234284004580854659963768613127368078710340902530640362int, 11429779749258604195241714302435945534567428435732981138371362586130785443370int);
    lemma_fundamental_div_mod_converse(11429779749258604195241714302435945534567428435732981138371362586130785443370int * 3, m, 1int, 12401096375936537363478737162050561515005974149901119752425049863747130121527int);
    assert(mod_pow(3, 106414742028899, 21888242871839275222246405745257275088696311157297823662689037894645226208583nat) == 12401096375936537363478737162050561515005974149901119752425049863747130121527nat);
    lemma_fundamental_div_mod_converse(12401096375936537363478737162050561515005974149901119752425049863747130121527int * 12401096375936537363478737162050561515005974149901119752425049863747130121527int, m, 7026018133375342054977953684918917580418166528808132269296516052471958750373int, 16455939258734788606637556244183862012165538143464413277289356206208461760270int);
    assert(mod_pow(3, 212829484057798, 21888242871839275222246405745257275088696311157297823662689037894645226208583nat) == 16455939258734788606637556244183862012165538143464413277289356206208461760270nat);
    lemma_fundamental_div_mod_converse(16455939258734788606637556244183862012165538143464413277289356206208461760270int * 16455939258734788606637556244183862012165538143464413277289356206208461760270int, m, 12371844486227305687061410949944981647539595558727542481119248117118755887437int, 3750035245454027717422952670521560340388675361550689933185839847981919201129int);
    lemma_fundamental_div_mod_converse(3750035245454027717422952670521560340388675361550689933185839847981919201129int * 3, m, 0int, 11250105736362083152268858011564681021166026084652069799557519543945757603387int);
    assert(mod_pow(3, 425658968115597, 21888242871839275222246405745257275088696311157297823662689037894645226208583nat) == 11250105736362083152268858011564681021166026084652069799557519543945757603387nat);
    lemma_fundamental_div_mod_converse(11250105736362083152268858011564681021166026084652069799557519543945757603387int * 11250105736362083152268858011564681021166026084652069799557519543945757603387int, m, 5782322492508589690421306027223493394498255186652165074380378771711483219306int, 16431425480501984440494981538270612719506649183699987520843235526084505368371int);
    assert(mod_pow(3, 851317936231194, 21888242871839275222246405745257275088696311157297823662689037894645226208583nat) == 16431425480501984440494981538270612719506649183699987520843235526084505368371nat);
    lemma_fundamental_div_mod_converse(16431425480501984440494981538270612719506649183699987520843235526084505368371int * 16431425480501984440494981538270612719506649183699987520843235526084505368371int, m, 12335012221042775185005381568102877885118960806623745405984290691350433671210int, 10550527855011969414482691572688930440289073110337027487622031947868505198211int);
    assert(mod_pow(3, 1702635872462388, 21888242871839275222246405745257275088696311157297823662689037894645226208583nat) == 10550527855011969414482691572688930440289073110337027487622031947868505198211nat);
    lemma_fundamental_div_mod_converse(10550527855011969414482691572688930440289073110337027487622031947868505198211int * 10550527855011969414482691572688930440289073110337027487622031947868505198211int, m, 5085544722395057740296733711205921235683500423506141931572282763651117078522int, 18767511153883594143334570420515633892068340356977938416676901538138836246195int);
    assert(mod_pow(3, 3405271744924776, 21888242871839275222246405745257275088696311157297823662689037894645226208583nat) == 18767511153883594143334570420515633892068340356977938416676901538138836246195nat);
    lemma_fundamental_div_mod_converse(18767511153883594143334570420515633892068340356977938416676901538138836246195int * 18767511153883594143334570420515633892068340356977938416676901538138836246195int, m, 16091719969184900289195544625057465424362880557975947316572823136856848070964int, 15268662102257889883638531087220200065661829494884796944597680813759602094013int);
    assert(mod_pow(3, 6810543489849552, 21888242871839275222246405745257275088696311157297823662689037894645226208583nat) == 15268662102257889883638531087220200065661829494884796944597680813759602094013nat);
    lemma_fundamental_div_mod_converse(15268662102257889883638531087220200065661829494884796944597680813759602094013int * 15268662102257889883638531087220200065661829494884796944597680813759602094013int, m, 10651016792803714632344716585532382546877703129233644084767525856478925906477int, 1725713184447246733185457272308889037862618756915564241109678052603337752078int);
    assert(mod_pow(3, 13621086979699104, 21888242871839275222246405745257275088696311157297823662689037894645226208583nat) == 1725713184447246733185457272308889037862618756915564241109678052603337752078nat);
    lemma_fundamental_div_mod_converse(1725713184447246733185457272308889037862618756915564241109678052603337752078int * 1725713184447246733185457272308889037862618756915564241109678052603337752078int, m, 136058705690193559971736937973541423161840017678551563380504938479177065952int, 10426773375396206115634278024161291068313018317138700020272157748399093852068int);
    assert(mod_pow(3, 27242173959398208, 21888242871839275222246405745257275088696311157297823662689037894645226208583nat) == 10426773375396206115634278024161291068313018317138700020272157748399093852068nat);
    lemma_fundamental_div_mod_converse(10426773375396206115634278024161291068313018317138700020272157748399093852068int * 10426773375396206115634278024161291068313018317138700020272157748399093852068int, m, 4966940638334374555197684572545649753276733882541485515060469576292018009210int, 3002008135698019307621025141475509677836934219805679131569701017950792827194int);
    assert(mod_pow(3, 54484347918796416, 21888242871839275222246405745257275088696311157297823662689037894645226208583nat) == 3002008135698019307621025141475509677836934219805679131569701017950792827194nat);
    lemma_fundamental_div_mod_converse(3002008135698019307621025141475509677836934219805679131569701017950792827194int * 3002008135698019307621025141475509677836934219805679131569701017950792827194int, m, 411730301950903570296123682771230893667520829184144953052603694663792767411int, 5376040286527082363019051098539065604757212866516648293777044202142855025023int);
    lemma_fundamental_div_mod_converse(5376040286527082363019051098539065604757212866516648293777044202142855025023int * 3, m, 0int, 16128120859581247089057153295617196814271638599549944881331132606428565075069int);
    assert(mod_pow(3, 108968695837592833, 21888242871839275222246405745257275088696311157297823662689037894645226208583nat) == 16128120859581247089057153295617196814271638599549944881331132606428565075069nat);
    lemma_fundamental_div_mod_converse(16128120859581247089057153295617196814271638599549944881331132606428565075069int * 16128120859581247089057153295617196814271638599549944881331132606428565075069int, m, 11883835718760100723475159355230499706846546521580352839294982183541188525772int, 8275789628920957561423975252472355391377536943108645916315921727406862253685int);
    assert(mod_pow(3, 217937391675185666, 21888242871839275222246405745257275088696311157297823662689037894645226208583nat) == 8275789628920957561423975252472355391377536943108645916315921727406862253685nat);
    lemma_fundamental_div_mod_converse(8275789628920957561423975252472355391377536943108645916315921727406862253685int * 8275789628920957561423975252472355391377536943108645916315921727406862253685int, m, 3129017453944239617309829469395498896206484490887251469017796071518504743387int, 13752886428365160430552730567239613405853231309078017969145887384741944188604int);
    lemma_fundamental_div_mod_converse(13752886428365160430552730567239613405853231309078017969145887384741944188604int * 3, m, 1int, 19370416413256206069411785956461565128863382769936230244748624259580606357229int);
    assert(mod_pow(3, 435874783350371333, 21888242871839275222246405745257275088696311157297823662689037894645226208583nat) == 19370416413256206069411785956461565128863382769936230244748624259580606357229nat);
    lemma_fundamental_div_mod_converse(19370416413256206069411785956461565128863382769936230244748624259580606357229int * 19370416413256206069411785956461565128863382769936230244748624259580606357229int, m, 17142218049201322945705832358846742501086439650303513609956925299335012782031int, 21400694806758502714424662429445222387305729074283342841798627469024040186368int);
    assert(mod_pow(3, 871749566700742666, 21888242871839275222246405745257275088696311157297823662689037894645226208583nat) == 21400694806758502714424662429445222387305729074283342841798627469024040186368nat);
    lemma_fundamental_div_mod_converse(21400694806758502714424662429445222387305729074283342841798627469024040186368int * 21400694806758502714424662429445222387305729074283342841798627469024040186368int, m, 20924006595397181873347445368732356592813606745098410566262535979866395939414int, 987496274653328976947963664289091017459485179443793947514586751806378241062int);
    assert(mod_pow(3, 1743499133401485332, 21888242871839275222246405745257275088696311157297823662689037894645226208583nat) == 987496274653328976947963664289091017459485179443793947514586751806378241062nat);
    lemma_fundamental_div_mod_converse(987496274653328976947963664289091017459485179443793947514586751806378241062int * 987496274653328976947963664289091017459485179443793947514586751806378241062int, m, 44551264263829913397306736612359527204547317397759866523276946974886533030int, 11127734745743635536089015038330693506701417134185849487178398938672483891354int);
    lemma_fundamental_div_mod_converse(11127734745743635536089015038330693506701417134185849487178398938672483891354int * 3, m, 1int, 11494961365391631386020639369734805431407940245259724798846158921372225465479int);
    assert(mod_pow(3, 3486998266802970665, 21888242871839275222246405745257275088696311157297823662689037894645226208583nat) == 11494961365391631386020639369734805431407940245259724798846158921372225465479nat);
    lemma_fundamental_div_mod_converse(11494961365391631386020639369734805431407940245259724798846158921372225465479int * 11494961365391631386020639369734805431407940245259724798846158921372225465479int, m, 6036763095398848237673637415992390633173010248054828343623819220654700901545int, 2383674768999661036488367169021780853470744114033987355715881519305903738706int);
    lemma_fundamental_div_mod_converse(2383674768999661036488367169021780853470744114033987355715881519305903738706int * 3, m, 0int, 7151024306998983109465101507065342560412232342101962067147644557917711216118int);
    assert(mod_pow(3, 6973996533605941331, 21888242871839275222246405745257275088696311157297823662689037894645226208583nat) == 7151024306998983109465101507065342560412232342101962067147644557917711216118nat);
    lemma_fundamental_div_mod_converse(7151024306998983109465101507065342560412232342101962067147644557917711216118int * 7151024306998983109465101507065342560412232342101962067147644557917711216118int, m, 2336283864296925064565465863537309690856919397961965901553521968979875367527int, 12422107479418564588505691696080421156924808519046288376978627885458616105683int);
    assert(mod_pow(3, 13947993067211882662nat, 21888242871839275222246405745257275088696311157297823662689037894645226208583nat) == 12422107479418564588505691696080421156924808519046288376978627885458616105683nat);
    lemma_fundamental_div_mod_converse(12422107479418564588505691696080421156924808519046288376978627885458616105683int * 12422107479418564588505691696080421156924808519046288376978627885458616105683int, m, 7049846583562695816799115918157510937428456283744249419693589056881908870363int, 9906712872283381370676160600331563868607895964082101084896953391805679970860int);
    lemma_fundamental_div_mod_converse(9906712872283381370676160600331563868607895964082101084896953391805679970860int * 3, m, 1int, 7831895745010868889782076055737416517127376734948479592001822280771813703997int);
    assert(mod_pow(3, 27895986134423765325nat, 21888242871839275222246405745257275088696311157297823662689037894645226208583nat) == 7831895745010868889782076055737416517127376734948479592001822280771813703997nat);
    lemma_fundamental_div_mod_converse(7831895745010868889782076055737416517127376734948479592001822280771813703997int * 7831895745010868889782076055737416517127376734948479592001822280771813703997int, m, 2802353360197572311974442070095508236382608046835316508748133198799228941068int, 84599147402104138409065714604276277834446299673655463092571336457150989365int);
    lemma_fundamental_div_mod_converse(84599147402104138409065714604276277834446299673655463092571336457150989365int * 3, m, 0int, 253797442206312415227197143812828833503338899020966389277714009371452968095int);
    assert(mod_pow(3, 55791972268847530651nat, 21888242871839275222246405745257275088696311157297823662689037894645226208583nat) == 253797442206312415227197143812828833503338899020966389277714009371452968095nat);
    lemma_fundamental_div_mod_converse(253797442206312415227197143812828833503338899020966389277714009371452968095int * 253797442206312415227197143812828833503338899020966389277714009371452968095int, m, 2942819213384113736071940881706109663806110097896137455205570025018281974int, 4509501952251807455534728234210177242346061345040283842231411927240654946183int);
    lemma_fundamental_div_mod_converse(4509501952251807455534728234210177242346061345040283842231411927240654946183int * 3, m, 0int, 13528505856755422366604184702630531727038184035120851526694235781721964838549int);
    assert(mod_pow(3, 111583944537695061303nat, 21888242871839275222246405745257275088696311157297823662689037894645226208583nat) == 13528505856755422366604184702630531727038184035120851526694235781721964838549nat);
    lemma_fundamental_div_mod_converse(13528505856755422366604184702630531727038184035120851526694235781721964838549int * 13528505856755422366604184702630531727038184035120851526694235781721964838549int, m, 8361588081231232371684999209020415867646771255107998821373483781516267697438int, 5912294820627953392166132698137592879584490007424156261549414712287513715047int);
    assert(mod_pow(3, 223167889075390122606nat, 21888242871839275222246405745257275088696311157297823662689037894645226208583nat) == 5912294820627953392166132698137592879584490007424156261549414712287513715047nat);
    lemma_fundamental_div_mod_converse(5912294820627953392166132698137592879584490007424156261549414712287513715047int * 5912294820627953392166132698137592879584490007424156261549414712287513715047int, m, 1596986576341238566295215690134982462523211994615499917166912892814236090434int, 10737228551341653193904539867163901808239166548537613629272155713952979217187int);
    assert(mod_pow(3, 446335778150780245212nat, 21888242871839275222246405745257275088696311157297823662689037894645226208583nat) == 10737228551341653193904539867163901808239166548537613629272155713952979217187nat);
    lemma_fundamental_div_mod_converse(10737228551341653193904539867163901808239166548537613629272155713952979217187int * 10737228551341653193904539867163901808239166548537613629272155713952979217187int, m, 5267123434200942180624746803548286575604768656535296835710483845058844076040int, 17259787753374307416884879560923436098283207182660310688822025576488363541649int);
    assert(mod_pow(3, 892671556301560490424nat, 21888242871839275222246405745257275088696311157297823662689037894645226208583nat) == 17259787753374307416884879560923436098283207182660310688822025576488363541649nat);
    lemma_fundamental_div_mod_converse(17259787753374307416884879560923436098283207182660310688822025576488363541649int * 17259787753374307416884879560923436098283207182660310688822025576488363541649int, m, 13610058835503823983258623780353415809399924414799205584894140733324030085196int, 1209925229845234085855412108644203721161020043706728482957746559113001201933int);
    assert(mod_pow(3, 1785343112603120980848nat, 21888242871839275222246405745257275088696311157297823662689037894645226208583nat) == 1209925229845234085855412108644203721161020043706728482957746559113001201933nat);
    lemma_fundamental_div_mod_converse(1209925229845234085855412108644203721161020043706728482957746559113001201933int * 1209925229845234085855412108644203721161020043706728482957746559113001201933int, m, 66881524953264967121422297099453159996864551416160381138219988251769521417int, 15974246463106758066644686248420572039489193494990326095525442189655315214378int);
    lemma_fundamental_div_mod_converse(15974246463106758066644686248420572039489193494990326095525442189655315214378int * 3, m, 2int, 4146253645641723755441247254747165941074958170375330961198250779675493225968int);
    assert(mod_pow(3, 3570686225206241961697nat, 21888242871839275222246405745257275088696311157297823662689037894645226208583nat) == 4146253645641723755441247254747165941074958170375330961198250779675493225968nat);
    lemma_fundamental_div_mod_converse(4146253645641723755441247254747165941074958170375330961198250779675493225968int * 4146253645641723755441247254747165941074958170375330961198250779675493225968int, m, 785417970490231732947907822861921143790148742174021758649198203798100827281int, 6499153609486948170160198168380655074369931658208985646148823056180146784201int);
    assert(mod_pow(3, 7141372450412483923394nat, 21888242871839275222246405745257275088696311157297823662689037894645226208583nat) == 6499153609486948170160198168380655074369931658208985646148823056180146784201nat);
    lemma_fundamental_div_mod_converse(6499153609486948170160198168380655074369931658208985646148823056180146784201int * 6499153609486948170160198168380655074369931658208985646148823056180146784201int, m, 1929757353617936710639443313307303732313493613371324015549008368893586546706int, 11297104031660963204017382858129247737740628834707732923602781090073435630803int);
    lemma_fundamental_div_mod_converse(11297104031660963204017382858129247737740628834707732923602781090073435630803int * 3, m, 1int, 12003069223143614389805742829130468124525575346825375108119305375575080683826int);
    assert(mod_pow(3, 14282744900824967846789nat, 21888242871839275222246405745257275088696311157297823662689037894645226208583nat) == 12003069223143614389805742829130468124525575346825375108119305375575080683826nat);
    lemma_fundamental_div_mod_converse(12003069223143614389805742829130468124525575346825375108119305375575080683826int * 12003069223143614389805742829130468124525575346825375108119305375575080683826int, m, 6582240137737968157940029507120105504183773254969111703272451245903933147225int, 9073652237257286660546901147417452507549860068354373726937185028294280366101int);
    assert(mod_pow(3, 28565489801649935693578nat, 21888242871839275222246405745257275088696311157297823662689037894645226208583nat) == 9073652237257286660546901147417452507549860068354373726937185028294280366101nat);
    lemma_fundamental_div_mod_converse(9073652237257286660546901147417452507549860068354373726937185028294280366101int * 9073652237257286660546901147417452507549860068354373726937185028294280366101int, m, 3761433268296234531164031889613211947840736611336704295468376927227628842846int, 12415186653965936909334236213526986438261890540656123558929339529878466594983int);
    assert(mod_pow(3, 57130979603299871387156nat, 21888242871839275222246405745257275088696311157297823662689037894645226208583nat) == 12415186653965936909334236213526986438261890540656123558929339529878466594983nat);
    lemma_fundamental_div_mod_converse(12415186653965936909334236213526986438261890540656123558929339529878466594983int * 12415186653965936909334236213526986438261890540656123558929339529878466594983int, m, 7041993300025081120949050577196112074394062384645213749436645163182393163457int, 7662412123106163067398766292557392694925474778871970481483601599206665418858int);
    assert(mod_pow(3, 114261959206599742774312nat, 21888242871839275222246405745257275088696311157297823662689037894645226208583nat) == 7662412123106163067398766292557392694925474778871970481483601599206665418858nat);
    lemma_fundamental_div_mod_converse(7662412123106163067398766292557392694925474778871970481483601599206665418858int * 7662412123106163067398766292557392694925474778871970481483601599206665418858int, m, 2682378840919296896468177775974033320220522559218934053234805915105166057325int, 11607561685955257480370485616788613092221947604755376409508364801320397003689int);
    assert(mod_pow(3, 228523918413199485548624nat, 21888242871839275222246405745257275088696311157297823662689037894645226208583nat) == 11607561685955257480370485616788613092221947604755376409508364801320397003689nat);
    lemma_fundamental_div_mod_converse(11607561685955257480370485616788613092221947604755376409508364801320397003689int * 11607561685955257480370485616788613092221947604755376409508364801320397003689int, m, 6155610072593031237618843746943820173594546959834340891647887825236407234726int, 2850340570566894577019543514801277659381855454188612476024688988040762755463int);
    assert(mod_pow(3, 457047836826398971097248nat, 21888242871839275222246405745257275088696311157297823662689037894645226208583nat) == 2850340570566894577019543514801277659381855454188612476024688988040762755463nat);
    lemma_fundamental_div_mod_converse(2850340570566894577019543514801277659381855454188612476024688988040762755463int * 2850340570566894577019543514801277659381855454188612476024688988040762755463int, m, 371178326912310573433447538812885698630883913453690938533920990675745303996int, 7119860277570770946031279950820956495927860224688967290223423061830496946701int);
    lemma_fundamental_div_mod_converse(7119860277570770946031279950820956495927860224688967290223423061830496946701int * 3, m, 0int, 21359580832712312838093839852462869487783580674066901870670269185491490840103int);
    assert(mod_pow(3, 914095673652797942194497nat, 21888242871839275222246405745257275088696311157297823662689037894645226208583nat) == 21359580832712312838093839852462869487783580674066901870670269185491490840103nat);
    lemma_fundamental_div_mod_converse(21359580832712312838093839852462869487783580674066901870670269185491490840103int * 21359580832712312838093839852462869487783580674066901870670269185491490840103int, m, 20843687454516715239419304797460286027913749188786196239687443474845952932721int, 10945717853452218561770737274187769524852106253704046408990827679912201306266int);
    assert(mod_pow(3, 1828191347305595884388994nat, 21888242871839275222246405745257275088696311157297823662689037894645226208583nat) == 10945717853452218561770737274187769524852106253704046408990827679912201306266nat);
    lemma_fundamental_div_mod_converse(10945717853452218561770737274187769524852106253704046408990827679912201306266int * 10945717853452218561770737274187769524852106253704046408990827679912201306266int, m, 5473657251927005916886086336070032460329958561755626260259337739125866005738int, 12647129595177094640396516443154731677177146681070051210156001100580868013502int);
    assert(mod_pow(3, 3656382694611191768777988nat, 21888242871839275222246405745257275088696311157297823662689037894645226208583nat) == 12647129595177094640396516443154731677177146681070051210156001100580868013502nat);
    lemma_fundamental_div_mod_converse(12647129595177094640396516443154731677177146681070051210156001100580868013502int * 12647129595177094640396516443154731677177146681070051210156001100580868013502int, m, 7307570915296761216953130082721588103223467586026568639521208361424914414863int, 18637325768277973272717499136207845436186405061687493985262055650442220934875int);
    assert(mod_pow(3, 7312765389222383537555976nat, 21888242871839275222246405745257275088696311157297823662689037894645226208583nat) == 18637325768277973272717499136207845436186405061687493985262055650442220934875nat);
    lemma_fundamental_div_mod_converse(18637325768277973272717499136207845436186405061687493985262055650442220934875int * 18637325768277973272717499136207845436186405061687493985262055650442220934875int, m, 15869246052628903219064638520238741887378675848652916732761229555819775137471int, 20785477553345413341964046955188123013380217432266029012617942261698046152032int);
    lemma_fundamental_div_mod_converse(20785477553345413341964046955188123013380217432266029012617942261698046152032int * 3, m, 2int, 18579946916357689581399329375049818862748029982202439712475750995803686038930int);
    assert(mod_pow(3, 14625530778444767075111953nat, 21888242871839275222246405745257275088696311157297823662689037894645226208583nat) == 18579946916357689581399329375049818862748029982202439712475750995803686038930nat);
    lemma_fundamental_div_mod_converse(18579946916357689581399329375049818862748029982202439712475750995803686038930int * 18579946916357689581399329375049818862748029982202439712475750995803686038930int, m, 15771682973182449533923667587644601928611830688260074597446550227437335024392int, 13529165380620181111378895027913266622099407175904185417253391412989490788364int);
    assert(mod_pow(3, 29251061556889534150223906nat, 21888242871839275222246405745257275088696311157297823662689037894645226208583nat) == 13529165380620181111378895027913266622099407175904185417253391412989490788364nat);
    lemma_fundamental_div_mod_converse(13529165380620181111378895027913266622099407175904185417253391412989490788364int * 13529165380620181111378895027913266622099407175904185417253391412989490788364int, m, 8362403367319308657289165612685813974688016541787221607063787594714809446324int, 4858590372122018253215980324357738687213177792527025836325770324262271197604int);
    lemma_fundamental_div_mod_converse(4858590372122018253215980324357738687213177792527025836325770324262271197604int * 3, m, 0int, 14575771116366054759647940973073216061639533377581077508977310972786813592812int);
    assert(mod_pow(3, 58502123113779068300447813nat, 21888242871839275222246405745257275088696311157297823662689037894645226208583nat) == 14575771116366054759647940973073216061639533377581077508977310972786813592812nat);
    lemma_fundamental_div_mod_converse(14575771116366054759647940973073216061639533377581077508977310972786813592812int * 14575771116366054759647940973073216061639533377581077508977310972786813592812int, m, 9706265819538507890232541819158055271765421366395998683112885993419892557744int, 9283032379994060708154185004044476437074127864161782011249584261348222150592int);
    lemma_fundamental_div_mod_converse(9283032379994060708154185004044476437074127864161782011249584261348222150592int * 3, m, 1int, 5960854268142906902216149266876154222526072435187522371059714889399440243193int);
    assert(mod_pow(3, 117004246227558136600895627nat, 21888242871839275222246405745257275088696311157297823662689037894645226208583nat) == 5960854268142906902216149266876154222526072435187522371059714889399440243193nat);
    lemma_fundamental_div_mod_converse(5960854268142906902216149266876154222526072435187522371059714889399440243193int * 5960854268142906902216149266876154222526072435187522371059714889399440243193int, m, 1623327364105210354038378943683527190429536022876435535841767437980168227261int, 15915341443416009940124866150846629349091195694579733653156139881947650054086int);
    assert(mod_pow(3, 234008492455116273201791254nat, 21888242871839275222246405745257275088696311157297823662689037894645226208583nat) == 15915341443416009940124866150846629349091195694579733653156139881947650054086nat);
    lemma_fundamental_div_mod_converse(15915341443416009940124866150846629349091195694579733653156139881947650054086int * 15915341443416009940124866150846629349091195694579733653156139881947650054086int, m, 11572335648120962781952347656297066424094667264982278959491604204732814228376int, 18667228497385813711065334457602843991676531625565003797655123294475551944188int);
    lemma_fundamental_div_mod_converse(18667228497385813711065334457602843991676531625565003797655123294475551944188int * 3, m, 2int, 12225199748478890688703191882293981797636972562099364067587294094136203415398int);
    assert(mod_pow(3, 468016984910232546403582509nat, 21888242871839275222246405745257275088696311157297823662689037894645226208583nat) == 12225199748478890688703191882293981797636972562099364067587294094136203415398nat);
    lemma_fundamental_div_mod_converse(12225199748478890688703191882293981797636972562099364067587294094136203415398int * 12225199748478890688703191882293981797636972562099364067587294094136203415398int, m, 6828118171262303048036480325227471181038537824704838116114573659768744957740int, 8228993130742423040069203052595439926473551355253891933944979983201383215984int);
    lemma_fundamental_div_mod_converse(8228993130742423040069203052595439926473551355253891933944979983201383215984int * 3, m, 1int, 2798736520387993897961203412529044690724342908463852139145902054958923439369int);
    assert(mod_pow(3, 936033969820465092807165019nat, 21888242871839275222246405745257275088696311157297823662689037894645226208583nat) == 2798736520387993897961203412529044690724342908463852139145902054958923439369nat);
    lemma_fundamental_div_mod_converse(2798736520387993897961203412529044690724342908463852139145902054958923439369int * 2798736520387993897961203412529044690724342908463852139145902054958923439369int, m, 357859977907641555389672769132728674977576720166363287024408144540750729908int, 10004082005575823522208222667496890130729759350987406274551713472243514717797int);
    assert(mod_pow(3, 1872067939640930185614330038nat, 21888242871839275222246405745257275088696311157297823662689037894645226208583nat) == 10004082005575823522208222667496890130729759350987406274551713472243514717797nat);
    lemma_fundamental_div_mod_converse(10004082005575823522208222667496890130729759350987406274551713472243514717797int * 10004082005575823522208222667496890130729759350987406274551713472243514717797int, m, 4572393378504032546448237155493616590217927584579701407032874340836283779984int, 3106426558360504702784058900513086410003657350629683160070153577216484130537int);
    lemma_fundamental_div_mod_converse(3106426558360504702784058900513086410003657350629683160070153577216484130537int * 3, m, 0int, 9319279675081514108352176701539259230010972051889049480210460731649452391611int);
    assert(mod_pow(3, 3744135879281860371228660077nat, 21888242871839275222246405745257275088696311157297823662689037894645226208583nat) == 9319279675081514108352176701539259230010972051889049480210460731649452391611nat);
    lemma_fundamental_div_mod_converse(9319279675081514108352176701539259230010972051889049480210460731649452391611int * 9319279675081514108352176701539259230010972051889049480210460731649452391611int, m, 3967836713568477843658215514063537360198163738258017148863744261424761187703int, 7513829649914948509130218489449066541688784401825703275851003911429010520472int);
    lemma_fundamental_div_mod_converse(7513829649914948509130218489449066541688784401825703275851003911429010520472int * 3, m, 1int, 653246077905570305144249723089924536370042048179286164863973839641805352833int);
    assert(mod_pow(3, 7488271758563720742457320155nat, 21888242871839275222246405745257275088696311157297823662689037894645226208583nat) == 653246077905570305144249723089924536370042048179286164863973839641805352833nat);
    lemma_fundamental_div_mod_converse(653246077905570305144249723089924536370042048179286164863973839641805352833int * 653246077905570305144249723089924536370042048179286164863973839641805352833int, m, 19495874602525924425378817631585745024169407060774223164575445606784489890int, 20395799627873017315367700586020698727100777169685934782273990765397226400019int);
    assert(mod_pow(3, 14976543517127441484914640310nat, 21888242871839275222246405745257275088696311157297823662689037894645226208583nat) == 20395799627873017315367700586020698727100777169685934782273990765397226400019nat);
    lemma_fundamental_div_mod_converse(20395799627873017315367700586020698727100777169685934782273990765397226400019int * 20395799627873017315367700586020698727100777169685934782273990765397226400019int, m, 19005118176733273274471576641849378419933725479489344272975046686823434411603int, 9361169841724949361142831621267292289980781755901566802031808506677449811812int);
    lemma_fundamental_div_mod_converse(9361169841724949361142831621267292289980781755901566802031808506677449811812int * 3, m, 1int, 6195266653335572861182089118544601781246034110406876743406387625387123226853int);
    assert(mod_pow(3, 29953087034254882969829280621nat, 21888242871839275222246405745257275088696311157297823662689037894645226208583nat) == 6195266653335572861182089118544601781246034110406876743406387625387123226853nat);
    lemma_fundamental_div_mod_converse(6195266653335572861182089118544601781246034110406876743406387625387123226853int * 6195266653335572861182089118544601781246034110406876743406387625387123226853int, m, 1753513478933110688226854164987378633295087758381364962554116596237168013162int, 10222654717609706842583794427144366542502336176914331287784458793398998914163int);
    assert(mod_pow(3, 59906174068509765939658561242nat, 21888242871839275222246405745257275088696311157297823662689037894645226208583nat) == 10222654717609706842583794427144366542502336176914331287784458793398998914163nat);
    lemma_fundamental_div_mod_converse(10222654717609706842583794427144366542502336176914331287784458793398998914163int * 10222654717609706842583794427144366542502336176914331287784458793398998914163int, m, 4774374539215198609422316416672364899981923266214382018145848679486444279816int, 9731781817366961062794919596158585663055813637137672655796346307687409129841int);
    assert(mod_pow(3, 119812348137019531879317122484nat, 21888242871839275222246405745257275088696311157297823662689037894645226208583nat) == 9731781817366961062794919596158585663055813637137672655796346307687409129841nat);
    lemma_fundamental_div_mod_converse(9731781817366961062794919596158585663055813637137672655796346307687409129841int * 9731781817366961062794919596158585663055813637137672655796346307687409129841int, m, 4326869812957073015573038702547647063375728673389515132394744577334587793309int, 4571771260059654251712673222206185176636438123173780110423437210842270914134int);
    assert(mod_pow(3, 239624696274039063758634244968nat, 21888242871839275222246405745257275088696311157297823662689037894645226208583nat) == 4571771260059654251712673222206185176636438123173780110423437210842270914134nat);
    lemma_fundamental_div_mod_converse(4571771260059654251712673222206185176636438123173780110423437210842270914134int * 4571771260059654251712673222206185176636438123173780110423437210842270914134int, m, 954900426529811896810717435286056828452656661289947212982237725739646221831int, 9975774472296724932864274980796069663141627632990907659851760082367306794483int);
    assert(mod_pow(3, 479249392548078127517268489936nat, 21888242871839275222246405745257275088696311157297823662689037894645226208583nat) == 9975774472296724932864274980796069663141627632990907659851760082367306794483nat);
    lemma_fundamental_div_mod_converse(9975774472296724932864274980796069663141627632990907659851760082367306794483int * 9975774472296724932864274980796069663141627632990907659851760082367306794483int, m, 4546553915031765948351313438104182816698644781393097236706883577912682847742int, 2986079417151647044510064917016112667039523889161181528652366259070676667703int);
    assert(mod_pow(3, 958498785096156255034536979872nat, 21888242871839275222246405745257275088696311157297823662689037894645226208583nat) == 2986079417151647044510064917016112667039523889161181528652366259070676667703nat);
    lemma_fundamental_div_mod_converse(2986079417151647044510064917016112667039523889161181528652366259070676667703int * 2986079417151647044510064917016112667039523889161181528652366259070676667703int, m, 407372594399006218923750691851184346122413330691127048287333158443846967378int, 13753821945240438280270705412062741761376896182281740685654044513230858690835int);
    assert(mod_pow(3, 1916997570192312510069073959744nat, 21888242871839275222246405745257275088696311157297823662689037894645226208583nat) == 13753821945240438280270705412062741761376896182281740685654044513230858690835nat);
    lemma_fundamental_div_mod_converse(13753821945240438280270705412062741761376896182281740685654044513230858690835int * 13753821945240438280270705412062741761376896182281740685654044513230858690835int, m, 8642430514363242046354989897165827031427079682222209159092901662399947103736int, 8081302621714515089536725711821780152535857373465594641257321536719038431137int);
    lemma_fundamental_div_mod_converse(8081302621714515089536725711821780152535857373465594641257321536719038431137int * 3, m, 1int, 2355664993304270046363771390208065368911260963098960261082926715511889084828int);
    assert(mod_pow(3, 3833995140384625020138147919489nat, 21888242871839275222246405745257275088696311157297823662689037894645226208583nat) == 2355664993304270046363771390208065368911260963098960261082926715511889084828nat);
    lemma_fundamental_div_mod_converse(2355664993304270046363771390208065368911260963098960261082926715511889084828int * 2355664993304270046363771390208065368911260963098960261082926715511889084828int, m, 253522294739272023043247296696984890560193046399610737944748776706252015828int, 1955250051299979577436705622384134962169076472175731292333154089246034337860int);
    lemma_fundamental_div_mod_converse(1955250051299979577436705622384134962169076472175731292333154089246034337860int * 3, m, 0int, 5865750153899938732310116867152404886507229416527193876999462267738103013580int);
    assert(mod_pow(3, 7667990280769250040276295838979nat, 21888242871839275222246405745257275088696311157297823662689037894645226208583nat) == 5865750153899938732310116867152404886507229416527193876999462267738103013580nat);
    lemma_fundamental_div_mod_converse(5865750153899938732310116867152404886507229416527193876999462267738103013580int * 5865750153899938732310116867152404886507229416527193876999462267738103013580int, m, 1571940930546058168756922005030238515081378201422214810592890862385444432153int, 7965298423161303603144117235595054206044005303565294627998706470370094647201int);
    assert(mod_pow(3, 15335980561538500080552591677958nat, 21888242871839275222246405745257275088696311157297823662689037894645226208583nat) == 7965298423161303603144117235595054206044005303565294627998706470370094647201nat);
    lemma_fundamental_div_mod_converse(7965298423161303603144117235595054206044005303565294627998706470370094647201int * 7965298423161303603144117235595054206044005303565294627998706470370094647201int, m, 2898632811299967364274209426688361852643065070930768926642642360398295535349int, 17784034022584768330477492979928764079383711146043745097882619772061133433934int);
    assert(mod_pow(3, 30671961123077000161105183355916nat, 21888242871839275222246405745257275088696311157297823662689037894645226208583nat) == 17784034022584768330477492979928764079383711146043745097882619772061133433934nat);
    lemma_fundamental_div_mod_converse(17784034022584768330477492979928764079383711146043745097882619772061133433934int * 17784034022584768330477492979928764079383711146043745097882619772061133433934int, m, 14449394954556083200861087190045405986804388040235903845959664165378020141659int, 6656396095773158830520112266879485725935803496335962109417525728917601057159int);
    assert(mod_pow(3, 61343922246154000322210366711832nat, 21888242871839275222246405745257275088696311157297823662689037894645226208583nat) == 6656396095773158830520112266879485725935803496335962109417525728917601057159nat);
    lemma_fundamental_div_mod_converse(6656396095773158830520112266879485725935803496335962109417525728917601057159int * 6656396095773158830520112266879485725935803496335962109417525728917601057159int, m, 2024265229660299862435067141827085275223017641750267725817192696930216526400int, 16940265572733895999215407897093668058129679919147094000102279744994259060081int);
    assert(mod_pow(3, 122687844492308000644420733423664nat, 21888242871839275222246405745257275088696311157297823662689037894645226208583nat) == 16940265572733895999215407897093668058129679919147094000102279744994259060081nat);
    lemma_fundamental_div_mod_converse(16940265572733895999215407897093668058129679919147094000102279744994259060081int * 16940265572733895999215407897093668058129679919147094000102279744994259060081int, m, 13110810189517916525076333055806314269145582297859718622525693556616672003034int, 17022067387799334571346233829642838734466929394764863452484777080241474885739int);
    assert(mod_pow(3, 245375688984616001288841466847328nat, 21888242871839275222246405745257275088696311157297823662689037894645226208583nat) == 17022067387799334571346233829642838734466929394764863452484777080241474885739nat);
    lemma_fundamental_div_mod_converse(17022067387799334571346233829642838734466929394764863452484777080241474885739int * 17022067387799334571346233829642838734466929394764863452484777080241474885739int, m, 13237735886399812322238290437256909766841726097567339607996013851882713790900int, 4847034100061555022287578348946998438652484517656792604156724383329058281421int);
    assert(mod_pow(3, 490751377969232002577682933694656nat, 21888242871839275222246405745257275088696311157297823662689037894645226208583nat) == 4847034100061555022287578348946998438652484517656792604156724383329058281421nat);
    lemma_fundamental_div_mod_converse(4847034100061555022287578348946998438652484517656792604156724383329058281421int * 4847034100061555022287578348946998438652484517656792604156724383329058281421int, m, 1073349729565813385079494626003133682809793447085226470328006109686004573838int, 12867381189074929798865493807045924292686814834389343787309148090652620927687int);
    lemma_fundamental_div_mod_converse(12867381189074929798865493807045924292686814834389343787309148090652620927687int * 3, m, 1int, 16713900695385514174350075675880497789364133345870207699238406377312636574478int);
    assert(mod_pow(3, 981502755938464005155365867389313nat, 21888242871839275222246405745257275088696311157297823662689037894645226208583nat) == 16713900695385514174350075675880497789364133345870207699238406377312636574478nat);
    lemma_fundamental_div_mod_converse(16713900695385514174350075675880497789364133345870207699238406377312636574478int * 16713900695385514174350075675880497789364133345870207699238406377312636574478int, m, 12762763922663570976175728742222383930403126804614739018637582596437938285210int, 3884943192578571398878386824838982745979122465367117804497291545949237015054int);
    assert(mod_pow(3, 1963005511876928010310731734778626nat, 21888242871839275222246405745257275088696311157297823662689037894645226208583nat) == 3884943192578571398878386824838982745979122465367117804497291545949237015054nat);
    lemma_fundamental_div_mod_converse(3884943192578571398878386824838982745979122465367117804497291545949237015054int * 3884943192578571398878386824838982745979122465367117804497291545949237015054int, m, 689538383594074768913569546755965764504918191361829088319146267132510118169int, 2217701380951694075717872624369743166585332651564248443649040716558650578389int);
    lemma_fundamental_div_mod_converse(2217701380951694075717872624369743166585332651564248443649040716558650578389int * 3, m, 0int, 6653104142855082227153617873109229499755997954692745330947122149675951735167int);
    assert(mod_pow(3, 3926011023753856020621463469557253nat, 21888242871839275222246405745257275088696311157297823662689037894645226208583nat) == 6653104142855082227153617873109229499755997954692745330947122149675951735167nat);
    lemma_fundamental_div_mod_converse(6653104142855082227153617873109229499755997954692745330947122149675951735167int * 6653104142855082227153617873109229499755997954692745330947122149675951735167int, m, 2022263504423366224401032665380139863944181668936071778833658661677203835410int, 5051584323319904584635841900441662967729799355911363660217398978817843193859int);
    assert(mod_pow(3, 7852022047507712041242926939114506nat, 21888242871839275222246405745257275088696311157297823662689037894645226208583nat) == 5051584323319904584635841900441662967729799355911363660217398978817843193859nat);
    lemma_fundamental_div_mod_converse(5051584323319904584635841900441662967729799355911363660217398978817843193859int * 5051584323319904584635841900441662967729799355911363660217398978817843193859int, m, 1165854396126183480838034710483648872972825181259865470375685917655725771981int, 5848893809693605929273076293193060949300979885637714900930914595028452198958int);
    lemma_fundamental_div_mod_converse(5848893809693605929273076293193060949300979885637714900930914595028452198958int * 3, m, 0int, 17546681429080817787819228879579182847902939656913144702792743785085356596874int);
    assert(mod_pow(3, 15704044095015424082485853878229013nat, 21888242871839275222246405745257275088696311157297823662689037894645226208583nat) == 17546681429080817787819228879579182847902939656913144702792743785085356596874nat);
    lemma_fundamental_div_mod_converse(17546681429080817787819228879579182847902939656913144702792743785085356596874int * 17546681429080817787819228879579182847902939656913144702792743785085356596874int, m, 14066274345382293362753866865464728171138851231895914196380772460332521683634int, 20621337874625757331175576961969273149213803879490027974834248631108925141254int);
    lemma_fundamental_div_mod_converse(20621337874625757331175576961969273149213803879490027974834248631108925141254int * 3, m, 2int, 18087527880198721549033919395393269270248789323874436599124670104036323006596int);
    assert(mod_pow(3, 31408088190030848164971707756458027nat, 21888242871839275222246405745257275088696311157297823662689037894645226208583nat) == 18087527880198721549033919395393269270248789323874436599124670104036323006596nat);
    lemma_fundamental_div_mod_converse(18087527880198721549033919395393269270248789323874436599124670104036323006596int * 18087527880198721549033919395393269270248789323874436599124670104036323006596int, m, 14946776072092936468553955847469920886836186969659803007208678300154514254145int, 14204569497472436469350780571020169288539449655402943266857306872164617180681int);
    assert(mod_pow(3, 62816176380061696329943415512916054nat, 21888242871839275222246405745257275088696311157297823662689037894645226208583nat) == 14204569497472436469350780571020169288539449655402943266857306872164617180681nat);
    lemma_fundamental_div_mod_converse(14204569497472436469350780571020169288539449655402943266857306872164617180681int * 14204569497472436469350780571020169288539449655402943266857306872164617180681int, m, 9218181458874207639005679006543404101232828259352098808470786184357508520756int, 17026918451691532544990742933094342628678797250362156262250683319850358775013int);
    assert(mod_pow(3, 125632352760123392659886831025832108nat, 21888242871839275222246405745257275088696311157297823662689037894645226208583nat) == 17026918451691532544990742933094342628678797250362156262250683319850358775013nat);
    lemma_fundamental_div_mod_converse(17026918451691532544990742933094342628678797250362156262250683319850358775013int * 17026918451691532544990742933094342628678797250362156262250683319850358775013int, m, 13245282120546566133978269604458135968094693764627400505682828082284774410775int, 5606910652183103511407557857910248666299143712160909280073613513798880468344int);
    assert(mod_pow(3, 251264705520246785319773662051664216nat, 21888242871839275222246405745257275088696311157297823662689037894645226208583nat) == 5606910652183103511407557857910248666299143712160909280073613513798880468344nat);
    lemma_fundamental_div_mod_converse(5606910652183103511407557857910248666299143712160909280073613513798880468344int * 5606910652183103511407557857910248666299143712160909280073613513798880468344int, m, 1436270935297907612141124517770691564770324564759885157324773916359105674315int, 14523676083867553099519042892986370735175460594566321448488661288619730456691int);
    assert(mod_pow(3, 502529411040493570639547324103328432nat, 21888242871839275222246405745257275088696311157297823662689037894645226208583nat) == 14523676083867553099519042892986370735175460594566321448488661288619730456691nat);
    lemma_fundamental_div_mod_converse(14523676083867553099519042892986370735175460594566321448488661288619730456691int * 14523676083867553099519042892986370735175460594566321448488661288619730456691int, m, 9637007786517732186322793116773251294938592055855501576980357057186495621684int, 5607582609945754662351195069714204150882846655863038791576418342938584955709int);
    lemma_fundamental_div_mod_converse(5607582609945754662351195069714204150882846655863038791576418342938584955709int * 3, m, 0int, 16822747829837263987053585209142612452648539967589116374729255028815754867127int);
    assert(mod_pow(3, 1005058822080987141279094648206656865nat, 21888242871839275222246405745257275088696311157297823662689037894645226208583nat) == 16822747829837263987053585209142612452648539967589116374729255028815754867127nat);
    lemma_fundamental_div_mod_converse(16822747829837263987053585209142612452648539967589116374729255028815754867127int * 16822747829837263987053585209142612452648539967589116374729255028815754867127int, m, 12929536930093164585397894225530235014223817576362727678399945619101966675140int, 9411679476228712423823602968221100410538787297672429093938958113992784507509int);
    assert(mod_pow(3, 2010117644161974282558189296413313730nat, 21888242871839275222246405745257275088696311157297823662689037894645226208583nat) == 9411679476228712423823602968221100410538787297672429093938958113992784507509nat);
    lemma_fundamental_div_mod_converse(9411679476228712423823602968221100410538787297672429093938958113992784507509int * 9411679476228712423823602968221100410538787297672429093938958113992784507509int, m, 4046908245760953243814822267404602428554406613548154183462961174386956583762int, 914393781804985703323919460031290903006309094263506283558856286902354555835int);
    lemma_fundamental_div_mod_converse(914393781804985703323919460031290903006309094263506283558856286902354555835int * 3, m, 0int, 2743181345414957109971758380093872709018927282790518850676568860707063667505int);
    assert(mod_pow(3, 4020235288323948565116378592826627461nat, 21888242871839275222246405745257275088696311157297823662689037894645226208583nat) == 2743181345414957109971758380093872709018927282790518850676568860707063667505nat);
    lemma_fundamental_div_mod_converse(2743181345414957109971758380093872709018927282790518850676568860707063667505int * 2743181345414957109971758380093872709018927282790518850676568860707063667505int, m, 343793877740368963220646169827012155959202679052331256208700980893677809098int, 6741897488244735248568907035817563769294176342781072693492003094556589836891int);
    lemma_fundamental_div_mod_converse(6741897488244735248568907035817563769294176342781072693492003094556589836891int * 3, m, 0int, 20225692464734205745706721107452691307882529028343218080476009283669769510673int);
    assert(mod_pow(3, 8040470576647897130232757185653254923nat, 21888242871839275222246405745257275088696311157297823662689037894645226208583nat) == 20225692464734205745706721107452691307882529028343218080476009283669769510673nat);
    lemma_fundamental_div_mod_converse(20225692464734205745706721107452691307882529028343218080476009283669769510673int * 20225692464734205745706721107452691307882529028343218080476009283669769510673int, m, 18689423270440485449212961232532666142858825261453578433771302479209244754620int, 5537893162358826783201845087520074279766482212450759966261605118807088009469int);
    lemma_fundamental_div_mod_converse(5537893162358826783201845087520074279766482212450759966261605118807088009469int * 3, m, 0int, 16613679487076480349605535262560222839299446637352279898784815356421264028407int);
    assert(mod_pow(3, 16080941153295794260465514371306509847nat, 21888242871839275222246405745257275088696311157297823662689037894645226208583nat) == 16613679487076480349605535262560222839299446637352279898784815356421264028407nat);
    lemma_fundamental_div_mod_converse(16613679487076480349605535262560222839299446637352279898784815356421264028407int * 16613679487076480349605535262560222839299446637352279898784815356421264028407int, m, 12610164631095956943088470371438090366162433510971187298031029811924163273584int, 16122904132203659131834928543017014950641860274544097012594392378435624986177int);
    assert(mod_pow(3, 32161882306591588520931028742613019694nat, 21888242871839275222246405745257275088696311157297823662689037894645226208583nat) == 16122904132203659131834928543017014950641860274544097012594392378435624986177nat);
    lemma_fundamental_div_mod_converse(16122904132203659131834928543017014950641860274544097012594392378435624986177int * 16122904132203659131834928543017014950641860274544097012594392378435624986177int, m, 11876149181014013475082674013157059102897507694167582925400016773118876132488int, 19832301586877374912466326674550572091828425387673129141202387206468810330825int);
    lemma_fundamental_div_mod_converse(19832301586877374912466326674550572091828425387673129141202387206468810330825int * 3, m, 2int, 15720419016953574292906168533137166098092653848423740098229085830115978575309int);
    assert(mod_pow(3, 64323764613183177041862057485226039389nat, 21888242871839275222246405745257275088696311157297823662689037894645226208583nat) == 15720419016953574292906168533137166098092653848423740098229085830115978575309nat);
    lemma_fundamental_div_mod_converse(15720419016953574292906168533137166098092653848423740098229085830115978575309int * 15720419016953574292906168533137166098092653848423740098229085830115978575309int, m, 11290608182466181090832738137431408596029926146184702039118969719059414950185int, 3208559129963568514196224721690035655768533065202079831732281262690020007626int);
    lemma_fundamental_div_mod_converse(3208559129963568514196224721690035655768533065202079831732281262690020007626int * 3, m, 0int, 9625677389890705542588674165070106967305599195606239495196843788070060022878int);
    assert(mod_pow(3, 128647529226366354083724114970452078779nat, 21888242871839275222246405745257275088696311157297823662689037894645226208583nat) == 9625677389890705542588674165070106967305599195606239495196843788070060022878nat);
    lemma_fundamental_div_mod_converse(9625677389890705542588674165070106967305599195606239495196843788070060022878int * 9625677389890705542588674165070106967305599195606239495196843788070060022878int, m, 4233033494591675832558839251439199038937188852218442641681127374513281737913int, 10525062496231510627752966828184837740021979055141595557721414581167806295605int);
    assert(mod_pow(3, 257295058452732708167448229940904157558nat, 21888242871839275222246405745257275088696311157297823662689037894645226208583nat) == 10525062496231510627752966828184837740021979055141595557721414581167806295605nat);
    lemma_fundamental_div_mod_converse(10525062496231510627752966828184837740021979055141595557721414581167806295605int * 10525062496231510627752966828184837740021979055141595557721414581167806295605int, m, 5061024824980410138672292263616535627443748839015192913475252608393444121104int, 15344104737930043612489906949502322271935538491157597492181077865468026080393int);
    assert(mod_pow(3, 514590116905465416334896459881808315116nat, 21888242871839275222246405745257275088696311157297823662689037894645226208583nat) == 15344104737930043612489906949502322271935538491157597492181077865468026080393nat);
    lemma_fundamental_div_mod_converse(15344104737930043612489906949502322271935538491157597492181077865468026080393int * 15344104737930043612489906949502322271935538491157597492181077865468026080393int, m, 10756530416220797009916228080632899274821635039468068481977898424771228503454int, 3383513377608063606438751008776857347176141922976586956670311515269359088767int);
    lemma_fundamental_div_mod_converse(3383513377608063606438751008776857347176141922976586956670311515269359088767int * 3, m, 0int, 10150540132824190819316253026330572041528425768929760870010934545808077266301int);
    assert(mod_pow(3, 1029180233810930832669792919763616630233nat, 21888242871839275222246405745257275088696311157297823662689037894645226208583nat) == 10150540132824190819316253026330572041528425768929760870010934545808077266301nat);
    lemma_fundamental_div_mod_converse(10150540132824190819316253026330572041528425768929760870010934545808077266301int * 10150540132824190819316253026330572041528425768929760870010934545808077266301int, m, 4707251540992089251074839883313527151164604076061436827624180757567412325837int, 16672107897244876457856519175311575434239414427903446921624996090427948163630int);
    assert(mod_pow(3, 2058360467621861665339585839527233260466nat, 21888242871839275222246405745257275088696311157297823662689037894645226208583nat) == 16672107897244876457856519175311575434239414427903446921624996090427948163630nat);
    lemma_fundamental_div_mod_converse(16672107897244876457856519175311575434239414427903446921624996090427948163630int * 16672107897244876457856519175311575434239414427903446921624996090427948163630int, m, 12699017612555300909864877362070999745809249099353117501256845982967338731269int, 13849290275016508201798636538856038080781266631075416506986571170102876495073int);
    lemma_fundamental_div_mod_converse(13849290275016508201798636538856038080781266631075416506986571170102876495073int * 3, m, 1int, 19659627953210249383149503871310839153647488735928425858270675615663403276636int);
    assert(mod_pow(3, 4116720935243723330679171679054466520933nat, 21888242871839275222246405745257275088696311157297823662689037894645226208583nat) == 19659627953210249383149503871310839153647488735928425858270675615663403276636nat);
    lemma_fundamental_div_mod_converse(19659627953210249383149503871310839153647488735928425858270675615663403276636int * 19659627953210249383149503871310839153647488735928425858270675615663403276636int, m, 17657925924967956730238994438797869327965511638211400209884491561446398968481int, 17682859401529609416229961379613441771462338802088445498394568706023394804073int);
    lemma_fundamental_div_mod_converse(17682859401529609416229961379613441771462338802088445498394568706023394804073int * 3, m, 2int, 9272092460910277804197072648325775136994394091669689169805630328779731995053int);
    assert(mod_pow(3, 8233441870487446661358343358108933041867nat, 21888242871839275222246405745257275088696311157297823662689037894645226208583nat) == 9272092460910277804197072648325775136994394091669689169805630328779731995053nat);
    lemma_fundamental_div_mod_converse(9272092460910277804197072648325775136994394091669689169805630328779731995053int * 9272092460910277804197072648325775136994394091669689169805630328779731995053int, m, 3927756974694286433046599735953531476342887274866763314264865140886950734902int, 5438281057340043982161231335722842265249085804433500090351785988608626408943int);
    lemma_fundamental_div_mod_converse(5438281057340043982161231335722842265249085804433500090351785988608626408943int * 3, m, 0int, 16314843172020131946483694007168526795747257413300500271055357965825879226829int);
    assert(mod_pow(3, 16466883740974893322716686716217866083735nat, 21888242871839275222246405745257275088696311157297823662689037894645226208583nat) == 16314843172020131946483694007168526795747257413300500271055357965825879226829nat);
    lemma_fundamental_div_mod_converse(16314843172020131946483694007168526795747257413300500271055357965825879226829int * 16314843172020131946483694007168526795747257413300500271055357965825879226829int, m, 12160597325519590021559069223295328709710269886649153153198111099454090995722int, 9316893206816482576184091019928350343665316392408784547507519571281500713315int);
    lemma_fundamental_div_mod_converse(9316893206816482576184091019928350343665316392408784547507519571281500713315int * 3, m, 1int, 6062436748610172506305867314527775942299638019928529979833520819199275931362int);
    assert(mod_pow(3, 32933767481949786645433373432435732167471nat, 21888242871839275222246405745257275088696311157297823662689037894645226208583nat) == 6062436748610172506305867314527775942299638019928529979833520819199275931362nat);
    lemma_fundamental_div_mod_converse(6062436748610172506305867314527775942299638019928529979833520819199275931362int * 6062436748610172506305867314527775942299638019928529979833520819199275931362int, m, 1679126988223641877454333871887631471214275848373988600445090945649960619697int, 19151964499747570448800890048054619553352535245642944738092942347840074915693int);
    assert(mod_pow(3, 65867534963899573290866746864871464334942nat, 21888242871839275222246405745257275088696311157297823662689037894645226208583nat) == 19151964499747570448800890048054619553352535245642944738092942347840074915693nat);
    lemma_fundamental_div_mod_converse(19151964499747570448800890048054619553352535245642944738092942347840074915693int * 19151964499747570448800890048054619553352535245642944738092942347840074915693int, m, 16757751928616510663314605347298428040383421592805092362019277870131567867294int, 3998921545155513232581682886432076687909154059120558287518733687142149885847int);
    assert(mod_pow(3, 131735069927799146581733493729742928669884nat, 21888242871839275222246405745257275088696311157297823662689037894645226208583nat) == 3998921545155513232581682886432076687909154059120558287518733687142149885847nat);
    lemma_fundamental_div_mod_converse(3998921545155513232581682886432076687909154059120558287518733687142149885847int * 3998921545155513232581682886432076687909154059120558287518733687142149885847int, m, 730591926357092629880403389965639277545915135395790646991470828959317929851int, 16532852968755321357468725825719651938925114890043715051255884602862042796276int);
    assert(mod_pow(3, 263470139855598293163466987459485857339768nat, 21888242871839275222246405745257275088696311157297823662689037894645226208583nat) == 16532852968755321357468725825719651938925114890043715051255884602862042796276nat);
    lemma_fundamental_div_mod_converse(16532852968755321357468725825719651938925114890043715051255884602862042796276int * 16532852968755321357468725825719651938925114890043715051255884602862042796276int, m, 12487764727708963267406124404152607543176743636534876913609290463119877290676int, 1444564857470117514732952827751194505458580679772247417784976884267542396068int);
    assert(mod_pow(3, 526940279711196586326933974918971714679536nat, 21888242871839275222246405745257275088696311157297823662689037894645226208583nat) == 1444564857470117514732952827751194505458580679772247417784976884267542396068nat);
    lemma_fundamental_div_mod_converse(1444564857470117514732952827751194505458580679772247417784976884267542396068int * 1444564857470117514732952827751194505458580679772247417784976884267542396068int, m, 95337375396287772358193915625150887025062543721892644891158550828600311612int, 11778070108129115311509304368665616687609211639652668315949220647703472894828int);
    assert(mod_pow(3, 1053880559422393172653867949837943429359072nat, 21888242871839275222246405745257275088696311157297823662689037894645226208583nat) == 11778070108129115311509304368665616687609211639652668315949220647703472894828nat);
    lemma_fundamental_div_mod_converse(11778070108129115311509304368665616687609211639652668315949220647703472894828int * 11778070108129115311509304368665616687609211639652668315949220647703472894828int, m, 6337783086758469555053651848690015356135925024877147386979882921182100912696int, 11015077048399899932347401765015216844097667857663379626977046544342380279816int);
    assert(mod_pow(3, 2107761118844786345307735899675886858718144nat, 21888242871839275222246405745257275088696311157297823662689037894645226208583nat) == 11015077048399899932347401765015216844097667857663379626977046544342380279816nat);
    lemma_fundamental_div_mod_converse(11015077048399899932347401765015216844097667857663379626977046544342380279816int * 11015077048399899932347401765015216844097667857663379626977046544342380279816int, m, 5543246348855534961290171145876402971516017008428811375082664091966686409341int, 3008432268361587982134166508044547566981885167048113341809700120075071420053int);
    lemma_fundamental_div_mod_converse(3008432268361587982134166508044547566981885167048113341809700120075071420053int * 3, m, 0int, 9025296805084763946402499524133642700945655501144340025429100360225214260159int);
    assert(mod_pow(3, 4215522237689572690615471799351773717436289nat, 21888242871839275222246405745257275088696311157297823662689037894645226208583nat) == 9025296805084763946402499524133642700945655501144340025429100360225214260159nat);
    lemma_fundamental_div_mod_converse(9025296805084763946402499524133642700945655501144340025429100360225214260159int * 9025296805084763946402499524133642700945655501144340025429100360225214260159int, m, 3721449131244424938910148435435689058333479273325744055137144686405623730696int, 9583590936115963498992891248779158352512442487024264214442481428693818941513int);
    assert(mod_pow(3, 8431044475379145381230943598703547434872578nat, 21888242871839275222246405745257275088696311157297823662689037894645226208583nat) == 9583590936115963498992891248779158352512442487024264214442481428693818941513nat);
    lemma_fundamental_div_mod_converse(9583590936115963498992891248779158352512442487024264214442481428693818941513int * 9583590936115963498992891248779158352512442487024264214442481428693818941513int, m, 4196098141298003160832072223442515547824484966199506036929213543575739700413int, 2928538021674343328716489378067613536038973055429084329512930911027445484390int);
    lemma_fundamental_div_mod_converse(2928538021674343328716489378067613536038973055429084329512930911027445484390int * 3, m, 0int, 8785614065023029986149468134202840608116919166287252988538792733082336453170int);
    assert(mod_pow(3, 16862088950758290762461887197407094869745157nat, 21888242871839275222246405745257275088696311157297823662689037894645226208583nat) == 8785614065023029986149468134202840608116919166287252988538792733082336453170nat);
    lemma_fundamental_div_mod_converse(8785614065023029986149468134202840608116919166287252988538792733082336453170int * 8785614065023029986149468134202840608116919166287252988538792733082336453170int, m, 3526414383807705015928157810672891380225644698777070413683285027381192005767int, 11158380413694378456052458651316884395512660524131702189733524678425122150739int);
    lemma_fundamental_div_mod_converse(11158380413694378456052458651316884395512660524131702189733524678425122150739int * 3, m, 1int, 11586898369243860145910970208693378097841670415097282906511536140630140243634int);
    assert(mod_pow(3, 33724177901516581524923774394814189739490315nat, 21888242871839275222246405745257275088696311157297823662689037894645226208583nat) == 11586898369243860145910970208693378097841670415097282906511536140630140243634nat);
    lemma_fundamental_div_mod_converse(11586898369243860145910970208693378097841670415097282906511536140630140243634int * 11586898369243860145910970208693378097841670415097282906511536140630140243634int, m, 6133713638197785499069952130308777032251672127027472455090365177412408974434int, 8666250569375915410017975206835674587983126807101688386026597020463679158934int);
    assert(mod_pow(3, 67448355803033163049847548789628379478980630nat, 21888242871839275222246405745257275088696311157297823662689037894645226208583nat) == 8666250569375915410017975206835674587983126807101688386026597020463679158934nat);
    lemma_fundamental_div_mod_converse(8666250569375915410017975206835674587983126807101688386026597020463679158934int * 8666250569375915410017975206835674587983126807101688386026597020463679158934int, m, 3431243858676051698174600639152356554783851875116204506231411137876631646913int, 10162157072097851712634055550985906794169206719885685667797891835195485962077int);
    lemma_fundamental_div_mod_converse(10162157072097851712634055550985906794169206719885685667797891835195485962077int * 3, m, 1int, 8598228344454279915655760907700445293811309002359233340704637610941231677648int);
    assert(mod_pow(3, 134896711606066326099695097579256758957961261nat, 21888242871839275222246405745257275088696311157297823662689037894645226208583nat) == 8598228344454279915655760907700445293811309002359233340704637610941231677648nat);
    lemma_fundamental_div_mod_converse(8598228344454279915655760907700445293811309002359233340704637610941231677648int * 8598228344454279915655760907700445293811309002359233340704637610941231677648int, m, 3377590933006888182251116743422794532891402953126492489705306708596000543317int, 2334865838361640823408558456070741039587457501057664507717653528232614122093int);
    assert(mod_pow(3, 269793423212132652199390195158513517915922522nat, 21888242871839275222246405745257275088696311157297823662689037894645226208583nat) == 2334865838361640823408558456070741039587457501057664507717653528232614122093nat);
    lemma_fundamental_div_mod_converse(2334865838361640823408558456070741039587457501057664507717653528232614122093int * 2334865838361640823408558456070741039587457501057664507717653528232614122093int, m, 249065149499143349661561053389767677930191990660061092268998567083123180214int, 15473196627180532686657260918076394348827203267908760226897333713256448123887int);
    lemma_fundamental_div_mod_converse(15473196627180532686657260918076394348827203267908760226897333713256448123887int * 3, m, 2int, 2643104137863047615478971263714632869088987489130633355313925350478891954495int);
    assert(mod_pow(3, 539586846424265304398780390317027035831845045nat, 21888242871839275222246405745257275088696311157297823662689037894645226208583nat) == 2643104137863047615478971263714632869088987489130633355313925350478891954495nat);
    lemma_fundamental_div_mod_converse(2643104137863047615478971263714632869088987489130633355313925350478891954495int * 2643104137863047615478971263714632869088987489130633355313925350478891954495int, m, 319166756531961339137487918837147885693499709691346284672671595343961802610int, 19097010075050923310033589509202065403354543934527207969290827559616616903395int);
    assert(mod_pow(3, 1079173692848530608797560780634054071663690090nat, 21888242871839275222246405745257275088696311157297823662689037894645226208583nat) == 19097010075050923310033589509202065403354543934527207969290827559616616903395nat);
    lemma_fundamental_div_mod_converse(19097010075050923310033589509202065403354543934527207969290827559616616903395int * 19097010075050923310033589509202065403354543934527207969290827559616616903395int, m, 16661720903864905860123366720223349569055761470799119723598166066706001291720int, 10430638894463051719434626263924330295873776419164236914482212293242611693265int);
    lemma_fundamental_div_mod_converse(10430638894463051719434626263924330295873776419164236914482212293242611693265int * 3, m, 1int, 9403673811549879936057473046515715798925018100194887080757598985082608871212int);
    assert(mod_pow(3, 2158347385697061217595121561268108143327380181nat, 21888242871839275222246405745257275088696311157297823662689037894645226208583nat) == 9403673811549879936057473046515715798925018100194887080757598985082608871212nat);
    lemma_fundamental_div_mod_converse(9403673811549879936057473046515715798925018100194887080757598985082608871212int * 9403673811549879936057473046515715798925018100194887080757598985082608871212int, m, 4040026496041814351345861128450839774764929938680026976000770860010604553572int, 18402422435355209317119605663990777667384909129300386877186380599943932640468int);
    assert(mod_pow(3, 4316694771394122435190243122536216286654760362nat, 21888242871839275222246405745257275088696311157297823662689037894645226208583nat) == 18402422435355209317119605663990777667384909129300386877186380599943932640468nat);
    lemma_fundamental_div_mod_converse(18402422435355209317119605663990777667384909129300386877186380599943932640468int * 18402422435355209317119605663990777667384909129300386877186380599943932640468int, m, 15471737657158405302370613932620423338414672213458712501902525245571723749963int, 609288772681103351011804998103324342434585557438019091191367102408974726595int);
    assert(mod_pow(3, 8633389542788244870380486245072432573309520724nat, 21888242871839275222246405745257275088696311157297823662689037894645226208583nat) == 609288772681103351011804998103324342434585557438019091191367102408974726595nat);
    lemma_fundamental_div_mod_converse(609288772681103351011804998103324342434585557438019091191367102408974726595int * 609288772681103351011804998103324342434585557438019091191367102408974726595int, m, 16960375060204658426370828368190236426308121979115037827986567570343310919int, 11834431384540642768192241825317659522729589000226257384035761131513484876248int);
    lemma_fundamental_div_mod_converse(11834431384540642768192241825317659522729589000226257384035761131513484876248int * 3, m, 1int, 13615051281782653082330319730695703479492455843380948489418245499895228420161int);
    assert(mod_pow(3, 17266779085576489740760972490144865146619041449nat, 21888242871839275222246405745257275088696311157297823662689037894645226208583nat) == 13615051281782653082330319730695703479492455843380948489418245499895228420161nat);
    lemma_fundamental_div_mod_converse(13615051281782653082330319730695703479492455843380948489418245499895228420161int * 13615051281782653082330319730695703479492455843380948489418245499895228420161int, m, 8468912853852795498174086154860000335246369603372365445940181754617566131743int, 5538393876777555129455702313478798225275804415900920844144217384154575915752int);
    assert(mod_pow(3, 34533558171152979481521944980289730293238082898nat, 21888242871839275222246405745257275088696311157297823662689037894645226208583nat) == 5538393876777555129455702313478798225275804415900920844144217384154575915752nat);
    lemma_fundamental_div_mod_converse(5538393876777555129455702313478798225275804415900920844144217384154575915752int * 5538393876777555129455702313478798225275804415900920844144217384154575915752int, m, 1401382784078619275637898680209998427753842978055909756161503227613970275323int, 14922455273998334548625672241201253309876608554054426509769979234249466028195int);
    assert(mod_pow(3, 69067116342305958963043889960579460586476165796nat, 21888242871839275222246405745257275088696311157297823662689037894645226208583nat) == 14922455273998334548625672241201253309876608554054426509769979234249466028195nat);
    lemma_fundamental_div_mod_converse(14922455273998334548625672241201253309876608554054426509769979234249466028195int * 14922455273998334548625672241201253309876608554054426509769979234249466028195int, m, 10173483212349282299072796385403835546993201387107189173289395102026913450695int, 3636881879860223241953580529392311938244810596649424369978843935568178642840int);
    assert(mod_pow(3, 138134232684611917926087779921158921172952331592nat, 21888242871839275222246405745257275088696311157297823662689037894645226208583nat) == 3636881879860223241953580529392311938244810596649424369978843935568178642840nat);
    lemma_fundamental_div_mod_converse(3636881879860223241953580529392311938244810596649424369978843935568178642840int * 3636881879860223241953580529392311938244810596649424369978843935568178642840int, m, 604292902153098702387599971943056200243028273992983445998238766220319466069int, 5889572860507361420097258924028915465403206270600085914460679946772498195373int);
    lemma_fundamental_div_mod_converse(5889572860507361420097258924028915465403206270600085914460679946772498195373int * 3, m, 0int, 17668718581522084260291776772086746396209618811800257743382039840317494586119int);
    assert(mod_pow(3, 276268465369223835852175559842317842345904663185nat, 21888242871839275222246405745257275088696311157297823662689037894645226208583nat) == 17668718581522084260291776772086746396209618811800257743382039840317494586119nat);
    lemma_fundamental_div_mod_converse(17668718581522084260291776772086746396209618811800257743382039840317494586119int * 17668718581522084260291776772086746396209618811800257743382039840317494586119int, m, 14262616608419920002940631631270072689891095838790681698373659231286020717426int, 372346543898029311548303045692132101170555268176396872043190536907528614803int);
    assert(mod_pow(3, 552536930738447671704351119684635684691809326370nat, 21888242871839275222246405745257275088696311157297823662689037894645226208583nat) == 372346543898029311548303045692132101170555268176396872043190536907528614803nat);
    lemma_fundamental_div_mod_converse(372346543898029311548303045692132101170555268176396872043190536907528614803int * 372346543898029311548303045692132101170555268176396872043190536907528614803int, m, 6334083076681291735101607871515502409621398836006059908594393669249533778int, 21187182366206972491194891457941194731639421666986777358111797575732618712235int);
    lemma_fundamental_div_mod_converse(21187182366206972491194891457941194731639421666986777358111797575732618712235int * 3, m, 2int, 19785061354942367029091862883309034017525642686364684748957316937907403719539int);
    assert(mod_pow(3, 1105073861476895343408702239369271369383618652741nat, 21888242871839275222246405745257275088696311157297823662689037894645226208583nat) == 19785061354942367029091862883309034017525642686364684748957316937907403719539nat);
    lemma_fundamental_div_mod_converse(19785061354942367029091862883309034017525642686364684748957316937907403719539int * 19785061354942367029091862883309034017525642686364684748957316937907403719539int, m, 17883968809687296364824239785112902822197783933027462376841360585016089635829int, 15852320346930117076364354801765627467280548464131432876399114414785306252214int);
    lemma_fundamental_div_mod_converse(15852320346930117076364354801765627467280548464131432876399114414785306252214int * 3, m, 2int, 3780475297111800784600252914782332224449023077798651303819267455065466339476int);
    assert(mod_pow(3, 2210147722953790686817404478738542738767237305483nat, 21888242871839275222246405745257275088696311157297823662689037894645226208583nat) == 3780475297111800784600252914782332224449023077798651303819267455065466339476nat);
    lemma_fundamental_div_mod_converse(3780475297111800784600252914782332224449023077798651303819267455065466339476int * 3780475297111800784600252914782332224449023077798651303819267455065466339476int, m, 652952982829891186013441109001549702248071662324301830268917435756287479783int, 13865079957831170746318673555269267002668278683550062485203978209522377087int);
    assert(mod_pow(3, 4420295445907581373634808957477085477534474610966nat, 21888242871839275222246405745257275088696311157297823662689037894645226208583nat) == 13865079957831170746318673555269267002668278683550062485203978209522377087nat);
    lemma_fundamental_div_mod_converse(13865079957831170746318673555269267002668278683550062485203978209522377087int * 13865079957831170746318673555269267002668278683550062485203978209522377087int, m, 8782817486203158206141581289328362466526284622436768789867165110718536int, 15946198300426656079527790905780005061829410144947746532311736109788882211081int);
    lemma_fundamental_div_mod_converse(15946198300426656079527790905780005061829410144947746532311736109788882211081int * 3, m, 2int, 4062109157601417794090561226825465008095608120247592271557132540076194216077int);
    assert(mod_pow(3, 8840590891815162747269617914954170955068949221933nat, 21888242871839275222246405745257275088696311157297823662689037894645226208583nat) == 4062109157601417794090561226825465008095608120247592271557132540076194216077nat);
    lemma_fundamental_div_mod_converse(4062109157601417794090561226825465008095608120247592271557132540076194216077int * 4062109157601417794090561226825465008095608120247592271557132540076194216077int, m, 753862742883697682696492474092237618206587841145486281302658529185159972253int, 11931082372983520896593585244268687819957879430049257087627673256451894822430int);
    assert(mod_pow(3, 17681181783630325494539235829908341910137898443866nat, 21888242871839275222246405745257275088696311157297823662689037894645226208583nat) == 11931082372983520896593585244268687819957879430049257087627673256451894822430nat);
    lemma_fundamental_div_mod_converse(11931082372983520896593585244268687819957879430049257087627673256451894822430int * 11931082372983520896593585244268687819957879430049257087627673256451894822430int, m, 6503524628469014805949003630832476645824169663580546580424755877168461983499int, 12100371119988840873695279563537954205606297064467846146601904398609552932983int);
    assert(mod_pow(3, 35362363567260650989078471659816683820275796887732nat, 21888242871839275222246405745257275088696311157297823662689037894645226208583nat) == 12100371119988840873695279563537954205606297064467846146601904398609552932983nat);
    lemma_fundamental_div_mod_converse(12100371119988840873695279563537954205606297064467846146601904398609552932983int * 12100371119988840873695279563537954205606297064467846146601904398609552932983int, m, 6689389463502255399110531975527712050200477169089219815375011622696819796414int, 14672379941594610389737659973434540516883313867167993041249837528394529856927int);
    assert(mod_pow(3, 70724727134521301978156943319633367640551593775464nat, 21888242871839275222246405745257275088696311157297823662689037894645226208583nat) == 14672379941594610389737659973434540516883313867167993041249837528394529856927nat);
    lemma_fundamental_div_mod_converse(14672379941594610389737659973434540516883313867167993041249837528394529856927int * 14672379941594610389737659973434540516883313867167993041249837528394529856927int, m, 9835359302755120147481233268535063329717740303560309429978000738887063781070int, 18915249985578497808724548868514524542041257937183454780701919853742622959519int);
    assert(mod_pow(3, 141449454269042603956313886639266735281103187550928nat, 21888242871839275222246405745257275088696311157297823662689037894645226208583nat) == 18915249985578497808724548868514524542041257937183454780701919853742622959519nat);
    lemma_fundamental_div_mod_converse(18915249985578497808724548868514524542041257937183454780701919853742622959519int * 18915249985578497808724548868514524542041257937183454780701919853742622959519int, m, 16346066886768898766103525581417363646105475836304333978310923034242137867939int, 17951510732652957901806028751450152007808694978783549431976141646106190390924int);
    lemma_fundamental_div_mod_converse(17951510732652957901806028751450152007808694978783549431976141646106190390924int * 3, m, 2int, 10078046454280323260925274763835905846033462621755000970550349149028118755606int);
    assert(mod_pow(3, 282898908538085207912627773278533470562206375101857nat, 21888242871839275222246405745257275088696311157297823662689037894645226208583nat) == 10078046454280323260925274763835905846033462621755000970550349149028118755606nat);
    lemma_fundamental_div_mod_converse(10078046454280323260925274763835905846033462621755000970550349149028118755606int * 10078046454280323260925274763835905846033462621755000970550349149028118755606int, m, 4640254630274828015063198067353429495891644329572775587015120994926794438593int, 19472026232443933399753820081902563813038791594207105925541426611658553383517int);
    lemma_fundamental_div_mod_converse(19472026232443933399753820081902563813038791594207105925541426611658553383517int * 3, m, 2int, 14639592953653249754768648755193141261723752468025670451246204045685207733385int);
    assert(mod_pow(3, 565797817076170415825255546557066941124412750203715nat, 21888242871839275222246405745257275088696311157297823662689037894645226208583nat) == 14639592953653249754768648755193141261723752468025670451246204045685207733385nat);
    lemma_fundamental_div_mod_converse(14639592953653249754768648755193141261723752468025670451246204045685207733385int * 14639592953653249754768648755193141261723752468025670451246204045685207733385int, m, 9791452109862517528199580499052686123788450293393922244550923376432503129011int, 1740376815739276346632859808707439529165799926092000897408089366557599056812int);
    lemma_fundamental_div_mod_converse(1740376815739276346632859808707439529165799926092000897408089366557599056812int * 3, m, 0int, 5221130447217829039898579426122318587497399778276002692224268099672797170436int);
    assert(mod_pow(3, 1131595634152340831650511093114133882248825500407431nat, 21888242871839275222246405745257275088696311157297823662689037894645226208583nat) == 5221130447217829039898579426122318587497399778276002692224268099672797170436nat);
    lemma_fundamental_div_mod_converse(5221130447217829039898579426122318587497399778276002692224268099672797170436int * 5221130447217829039898579426122318587497399778276002692224268099672797170436int, m, 1245426748345211728482784941683245388225086567879740763682161586250056177824int, 10196028080798164258702865070485557047056715609226273325550120030552069366704int);
    assert(mod_pow(3, 2263191268304681663301022186228267764497651000814862nat, 21888242871839275222246405745257275088696311157297823662689037894645226208583nat) == 10196028080798164258702865070485557047056715609226273325550120030552069366704nat);
    lemma_fundamental_div_mod_converse(10196028080798164258702865070485557047056715609226273325550120030552069366704int * 10196028080798164258702865070485557047056715609226273325550120030552069366704int, m, 4749535594662788646796938798441300968750468585629652796251486207054250262571int, 19520981676112112671393011655232145424035703463030535421949476504637059976723int);
    assert(mod_pow(3, 4526382536609363326602044372456535528995302001629724nat, 21888242871839275222246405745257275088696311157297823662689037894645226208583nat) == 19520981676112112671393011655232145424035703463030535421949476504637059976723nat);
    lemma_fundamental_div_mod_converse(19520981676112112671393011655232145424035703463030535421949476504637059976723int * 19520981676112112671393011655232145424035703463030535421949476504637059976723int, m, 17409744940713167227788070519317141863487179794090640993377840221498697336390int, 5027642907396112798587877368119211430670612464130733170055675633948645583359int);
    assert(mod_pow(3, 9052765073218726653204088744913071057990604003259448nat, 21888242871839275222246405745257275088696311157297823662689037894645226208583nat) == 5027642907396112798587877368119211430670612464130733170055675633948645583359nat);
    lemma_fundamental_div_mod_converse(5027642907396112798587877368119211430670612464130733170055675633948645583359int * 5027642907396112798587877368119211430670612464130733170055675633948645583359int, m, 1154829711653614723390675397691883192412377653853193837169340819379805247060int, 13118113999683516645351931693039293195240502063551647550119184643084010206901int);
    lemma_fundamental_div_mod_converse(13118113999683516645351931693039293195240502063551647550119184643084010206901int * 3, m, 1int, 17466099127211274713809389333860604497025195033357118987668516034606804412120int);
    assert(mod_pow(3, 18105530146437453306408177489826142115981208006518897nat, 21888242871839275222246405745257275088696311157297823662689037894645226208583nat) == 17466099127211274713809389333860604497025195033357118987668516034606804412120nat);
    lemma_fundamental_div_mod_converse(17466099127211274713809389333860604497025195033357118987668516034606804412120int * 17466099127211274713809389333860604497025195033357118987668516034606804412120int, m, 13937373616867939402629415618291687790231455177732559759011535652956382009028int, 19604364774762953938345337310116183201767628700150288242821712938169885807076int);
    lemma_fundamental_div_mod_converse(19604364774762953938345337310116183201767628700150288242821712938169885807076int * 3, m, 2int, 15036608580610311370543200439833999427910263785855217403087063025219205004062int);
    assert(mod_pow(3, 36211060292874906612816354979652284231962416013037795nat, 21888242871839275222246405745257275088696311157297823662689037894645226208583nat) == 15036608580610311370543200439833999427910263785855217403087063025219205004062nat);
    lemma_fundamental_div_mod_converse(15036608580610311370543200439833999427910263785855217403087063025219205004062int * 15036608580610311370543200439833999427910263785855217403087063025219205004062int, m, 10329728107018415490660814916997555933122567045491043625113971196179661839881int, 12888666841234666314371247659169278540899440196884368338158895250357782601221int);
    lemma_fundamental_div_mod_converse(12888666841234666314371247659169278540899440196884368338158895250357782601221int * 3, m, 1int, 16777757651864723720867337232250560534002009433355281351787647856428121595080int);
    assert(mod_pow(3, 72422120585749813225632709959304568463924832026075591nat, 21888242871839275222246405745257275088696311157297823662689037894645226208583nat) == 16777757651864723720867337232250560534002009433355281351787647856428121595080nat);
    lemma_fundamental_div_mod_converse(16777757651864723720867337232250560534002009433355281351787647856428121595080int * 16777757651864723720867337232250560534002009433355281351787647856428121595080int, m, 12860472787738732675367652639770782232985215888627503835649318275330315895147int, 2919460768976218132973793478794059743515005391309383466566469730444900759699int);
    assert(mod_pow(3, 144844241171499626451265419918609136927849664052151182nat, 21888242871839275222246405745257275088696311157297823662689037894645226208583nat) == 2919460768976218132973793478794059743515005391309383466566469730444900759699nat);
    lemma_fundamental_div_mod_converse(2919460768976218132973793478794059743515005391309383466566469730444900759699int * 2919460768976218132973793478794059743515005391309383466566469730444900759699int, m, 389398602322571894259052879417456831412658192827387150896153145508836103756int, 6411722101419204154424257952173954809261328359414733481315945105117456832853int);
    assert(mod_pow(3, 289688482342999252902530839837218273855699328104302364nat, 21888242871839275222246405745257275088696311157297823662689037894645226208583nat) == 6411722101419204154424257952173954809261328359414733481315945105117456832853nat);
    lemma_fundamental_div_mod_converse(6411722101419204154424257952173954809261328359414733481315945105117456832853int * 6411722101419204154424257952173954809261328359414733481315945105117456832853int, m, 1878185496503173406088076051253155676142955365980657125430119942618839238742int, 10595770956911869669488210500489048149820355263300239698971129443966953597023int);
    lemma_fundamental_div_mod_converse(10595770956911869669488210500489048149820355263300239698971129443966953597023int * 3, m, 1int, 9899069998896333786218225756209869360764754632602895434224350437255634582486int);
    assert(mod_pow(3, 579376964685998505805061679674436547711398656208604729nat, 21888242871839275222246405745257275088696311157297823662689037894645226208583nat) == 9899069998896333786218225756209869360764754632602895434224350437255634582486nat);
    lemma_fundamental_div_mod_converse(9899069998896333786218225756209869360764754632602895434224350437255634582486int * 9899069998896333786218225756209869360764754632602895434224350437255634582486int, m, 4476905131984000189682226273180685156390458713726055308299166085422325069216int, 5219593839002166204650789607198691893877949597038304633780750667998809659268int);
    assert(mod_pow(3, 1158753929371997011610123359348873095422797312417209458nat, 21888242871839275222246405745257275088696311157297823662689037894645226208583nat) == 5219593839002166204650789607198691893877949597038304633780750667998809659268nat);
    lemma_fundamental_div_mod_converse(5219593839002166204650789607198691893877949597038304633780750667998809659268int * 5219593839002166204650789607198691893877949597038304633780750667998809659268int, m, 1244693783949229219320911872919800490722461634878792231480577950024886997819int, 4962746165411591127837554181966311627140012172785697605353557677291498215347int);
    lemma_fundamental_div_mod_converse(4962746165411591127837554181966311627140012172785697605353557677291498215347int * 3, m, 0int, 14888238496234773383512662545898934881420036518357092816060673031874494646041int);
    assert(mod_pow(3, 2317507858743994023220246718697746190845594624834418917nat, 21888242871839275222246405745257275088696311157297823662689037894645226208583nat) == 14888238496234773383512662545898934881420036518357092816060673031874494646041nat);
    lemma_fundamental_div_mod_converse(14888238496234773383512662545898934881420036518357092816060673031874494646041int * 14888238496234773383512662545898934881420036518357092816060673031874494646041int, m, 10126881669699827473398905332311568378958745563435999686666871727689448424625int, 20367347241606665315030094538725359707348834213582199532414760871062873417306int);
    assert(mod_pow(3, 4635015717487988046440493437395492381691189249668837834nat, 21888242871839275222246405745257275088696311157297823662689037894645226208583nat) == 20367347241606665315030094538725359707348834213582199532414760871062873417306nat);
    lemma_fundamental_div_mod_converse(20367347241606665315030094538725359707348834213582199532414760871062873417306int * 20367347241606665315030094538725359707348834213582199532414760871062873417306int, m, 18952130424040952467932133999850788285424890835572936360406981291306034004324int, 17512469164312174025873948790050873083900035801473841483717499039286472384744int);
    lemma_fundamental_div_mod_converse(17512469164312174025873948790050873083900035801473841483717499039286472384744int * 3, m, 2int, 8760921749257971633129034879638069074307485089825877125774421328568964737066int);
    assert(mod_pow(3, 9270031434975976092880986874790984763382378499337675669nat, 21888242871839275222246405745257275088696311157297823662689037894645226208583nat) == 8760921749257971633129034879638069074307485089825877125774421328568964737066nat);
    lemma_fundamental_div_mod_converse(8760921749257971633129034879638069074307485089825877125774421328568964737066int * 8760921749257971633129034879638069074307485089825877125774421328568964737066int, m, 3506619985260229266222217057394013986041703007540592987606628746275311881843int, 8123166067298537978222446884032769923670022611441883629410232061172745829887int);
    assert(mod_pow(3, 18540062869951952185761973749581969526764756998675351338nat, 21888242871839275222246405745257275088696311157297823662689037894645226208583nat) == 8123166067298537978222446884032769923670022611441883629410232061172745829887nat);
    lemma_fundamental_div_mod_converse(8123166067298537978222446884032769923670022611441883629410232061172745829887int * 8123166067298537978222446884032769923670022611441883629410232061172745829887int, m, 3014669900332917312287182218645130082231805921146339991039165061145337948449int, 2174696808959866014821781861400651223879350035323961702932637547368567095002int);
    assert(mod_pow(3, 37080125739903904371523947499163939053529513997350702676nat, 21888242871839275222246405745257275088696311157297823662689037894645226208583nat) == 2174696808959866014821781861400651223879350035323961702932637547368567095002nat);
    lemma_fundamental_div_mod_converse(2174696808959866014821781861400651223879350035323961702932637547368567095002int * 2174696808959866014821781861400651223879350035323961702932637547368567095002int, m, 216066051468425571575726507211546807300172895548085978771792403972141874718int, 9181013028346407355025450876613131800256871376095373575997408836148371075410int);
    assert(mod_pow(3, 74160251479807808743047894998327878107059027994701405352nat, 21888242871839275222246405745257275088696311157297823662689037894645226208583nat) == 9181013028346407355025450876613131800256871376095373575997408836148371075410nat);
    lemma_fundamental_div_mod_converse(9181013028346407355025450876613131800256871376095373575997408836148371075410int * 9181013028346407355025450876613131800256871376095373575997408836148371075410int, m, 3850971533905657596497532795399923049982841068750750374735706829290530005904int, 6577266048721866674566051156205389185017950533778922769877807866285381194068int);
    lemma_fundamental_div_mod_converse(6577266048721866674566051156205389185017950533778922769877807866285381194068int * 3, m, 0int, 19731798146165600023698153468616167555053851601336768309633423598856143582204int);
    assert(mod_pow(3, 148320502959615617486095789996655756214118055989402810705nat, 21888242871839275222246405745257275088696311157297823662689037894645226208583nat) == 19731798146165600023698153468616167555053851601336768309633423598856143582204nat);
    lemma_fundamental_div_mod_converse(19731798146165600023698153468616167555053851601336768309633423598856143582204int * 19731798146165600023698153468616167555053851601336768309633423598856143582204int, m, 17787807836413482540346155200057125306953696487115373168501422318558498803030int, 19011241940531501752010790502470083102039698835419097945805293941906693091126int);
    lemma_fundamental_div_mod_converse(19011241940531501752010790502470083102039698835419097945805293941906693091126int * 3, m, 2int, 13257240077915954811539560016895699128726474191661646512037806036429626856212int);
    assert(mod_pow(3, 296641005919231234972191579993311512428236111978805621411nat, 21888242871839275222246405745257275088696311157297823662689037894645226208583nat) == 13257240077915954811539560016895699128726474191661646512037806036429626856212nat);
    lemma_fundamental_div_mod_converse(13257240077915954811539560016895699128726474191661646512037806036429626856212int * 13257240077915954811539560016895699128726474191661646512037806036429626856212int, m, 8029626476304369450767388369786206505351256310330073372247130367196607920776int, 16505926378648818779643383419891290065249433331376188942408817837921207768536int);
    assert(mod_pow(3, 593282011838462469944383159986623024856472223957611242822nat, 21888242871839275222246405745257275088696311157297823662689037894645226208583nat) == 16505926378648818779643383419891290065249433331376188942408817837921207768536nat);
    lemma_fundamental_div_mod_converse(16505926378648818779643383419891290065249433331376188942408817837921207768536int * 16505926378648818779643383419891290065249433331376188942408817837921207768536int, m, 12447120913844338561937613344331770235131890824440758353461785981905266826876int, 5976628050821957008599908725042833048716465902556898502377309546912025306588int);
    lemma_fundamental_div_mod_converse(5976628050821957008599908725042833048716465902556898502377309546912025306588int * 3, m, 0int, 17929884152465871025799726175128499146149397707670695507131928640736075919764int);
    assert(mod_pow(3, 1186564023676924939888766319973246049712944447915222485645nat, 21888242871839275222246405745257275088696311157297823662689037894645226208583nat) == 17929884152465871025799726175128499146149397707670695507131928640736075919764nat);
    lemma_fundamental_div_mod_converse(17929884152465871025799726175128499146149397707670695507131928640736075919764int * 17929884152465871025799726175128499146149397707670695507131928640736075919764int, m, 14687371097040128393376973911691547494473898016241451404302153233949049226894int, 8886286611811469846852277824421428538786844937381656786827887073975628584494int);
    assert(mod_pow(3, 2373128047353849879777532639946492099425888895830444971290nat, 21888242871839275222246405745257275088696311157297823662689037894645226208583nat) == 8886286611811469846852277824421428538786844937381656786827887073975628584494nat);
    lemma_fundamental_div_mod_converse(8886286611811469846852277824421428538786844937381656786827887073975628584494int * 8886286611811469846852277824421428538786844937381656786827887073975628584494int, m, 3607694332049607314957030963563481782829158365341936526129066814053106126691int, 9077602687719012189988668326511141413451771308855762944556268912403707647183int);
    assert(mod_pow(3, 4746256094707699759555065279892984198851777791660889942580nat, 21888242871839275222246405745257275088696311157297823662689037894645226208583nat) == 9077602687719012189988668326511141413451771308855762944556268912403707647183nat);
    lemma_fundamental_div_mod_converse(9077602687719012189988668326511141413451771308855762944556268912403707647183int * 9077602687719012189988668326511141413451771308855762944556268912403707647183int, m, 3764709256863207379517741159056413998432282983745222688049534351136957099885int, 12712274811862665422269610034118099954679785365129847770288527065711832522534int);
    lemma_fundamental_div_mod_converse(12712274811862665422269610034118099954679785365129847770288527065711832522534int * 3, m, 1int, 16248581563748721044562424357097024775343044938091719648176543302490271359019int);
    assert(mod_pow(3, 9492512189415399519110130559785968397703555583321779885161nat, 21888242871839275222246405745257275088696311157297823662689037894645226208583nat) == 16248581563748721044562424357097024775343044938091719648176543302490271359019nat);
    lemma_fundamental_div_mod_converse(16248581563748721044562424357097024775343044938091719648176543302490271359019int * 16248581563748721044562424357097024775343044938091719648176543302490271359019int, m, 12062019065654193378056815344874322309857142073942214976160557419867053449585int, 14455125433284077930159634677117126029109723146976520612678175768796307854306int);
    lemma_fundamental_div_mod_converse(14455125433284077930159634677117126029109723146976520612678175768796307854306int * 3, m, 1int, 21477133428012958568232498286094102998632858283631738175345489411743697354335int);
    assert(mod_pow(3, 18985024378830799038220261119571936795407111166643559770323nat, 21888242871839275222246405745257275088696311157297823662689037894645226208583nat) == 21477133428012958568232498286094102998632858283631738175345489411743697354335nat);
    lemma_fundamental_div_mod_converse(21477133428012958568232498286094102998632858283631738175345489411743697354335int * 21477133428012958568232498286094102998632858283631738175345489411743697354335int, m, 21073745525645807081483841058647988455142233633206808926937873336847089502932int, 11286819298851058644584745908775673978336149139766723389294151811606121226869int);
    lemma_fundamental_div_mod_converse(11286819298851058644584745908775673978336149139766723389294151811606121226869int * 3, m, 1int, 11972215024713900711507831981069746846312136262002346505193417540173137472024int);
    assert(mod_pow(3, 37970048757661598076440522239143873590814222333287119540647nat, 21888242871839275222246405745257275088696311157297823662689037894645226208583nat) == 11972215024713900711507831981069746846312136262002346505193417540173137472024nat);
    lemma_fundamental_div_mod_converse(11972215024713900711507831981069746846312136262002346505193417540173137472024int * 11972215024713900711507831981069746846312136262002346505193417540173137472024int, m, 6548443995127365627587279195102541990552457898301744544773583945481088846563int, 2629808865299640490663327923468731383609698143098693427278595422448262006347int);
    lemma_fundamental_div_mod_converse(2629808865299640490663327923468731383609698143098693427278595422448262006347int * 3, m, 0int, 7889426595898921471989983770406194150829094429296080281835786267344786019041int);
    assert(mod_pow(3, 75940097515323196152881044478287747181628444666574239081295nat, 21888242871839275222246405745257275088696311157297823662689037894645226208583nat) == 7889426595898921471989983770406194150829094429296080281835786267344786019041nat);
    lemma_fundamental_div_mod_converse(7889426595898921471989983770406194150829094429296080281835786267344786019041int * 7889426595898921471989983770406194150829094429296080281835786267344786019041int, m, 2843675135392306744128860625239444450779566191965265159462012487159078930219int, 7995727774250377173181468821677903548197996113593333556486829102495818690004int);
    assert(mod_pow(3, 151880195030646392305762088956575494363256889333148478162590nat, 21888242871839275222246405745257275088696311157297823662689037894645226208583nat) == 7995727774250377173181468821677903548197996113593333556486829102495818690004nat);
    lemma_fundamental_div_mod_converse(7995727774250377173181468821677903548197996113593333556486829102495818690004int * 7995727774250377173181468821677903548197996113593333556486829102495818690004int, m, 2920822060238163597608202712147649728142410488197906941477525496241986555346int, 2924096441461178822868002859250074745737191225958120343908685047322779785298int);
    assert(mod_pow(3, 303760390061292784611524177913150988726513778666296956325180nat, 21888242871839275222246405745257275088696311157297823662689037894645226208583nat) == 2924096441461178822868002859250074745737191225958120343908685047322779785298nat);
    lemma_fundamental_div_mod_converse(2924096441461178822868002859250074745737191225958120343908685047322779785298int * 2924096441461178822868002859250074745737191225958120343908685047322779785298int, m, 390636199032976177344682881163146972560697779082766743053496117505198066254int, 7166590381721608572035094519141120784625743412161008267194633649491319490722int);
    assert(mod_pow(3, 607520780122585569223048355826301977453027557332593912650360nat, 21888242871839275222246405745257275088696311157297823662689037894645226208583nat) == 7166590381721608572035094519141120784625743412161008267194633649491319490722nat);
    lemma_fundamental_div_mod_converse(7166590381721608572035094519141120784625743412161008267194633649491319490722int * 7166590381721608572035094519141120784625743412161008267194633649491319490722int, m, 2346466000039813816731080689610983288484590576884412810651218737774927019143int, 3835074735192982229508245538020716214736128799846543094770404116161692176915int);
    assert(mod_pow(3, 1215041560245171138446096711652603954906055114665187825300720nat, 21888242871839275222246405745257275088696311157297823662689037894645226208583nat) == 3835074735192982229508245538020716214736128799846543094770404116161692176915nat);
    lemma_fundamental_div_mod_converse(3835074735192982229508245538020716214736128799846543094770404116161692176915int * 3835074735192982229508245538020716214736128799846543094770404116161692176915int, m, 671949699691888622450218909271498407171668451948431652411149880745338557580int, 12771842715130296571482541300500486880500903037568407466188396177446223208085int);
    lemma_fundamental_div_mod_converse(12771842715130296571482541300500486880500903037568407466188396177446223208085int * 3, m, 1int, 16427285273551614492201218156244185552806397955407398735876150637693443415672int);
    assert(mod_pow(3, 2430083120490342276892193423305207909812110229330375650601441nat, 21888242871839275222246405745257275088696311157297823662689037894645226208583nat) == 16427285273551614492201218156244185552806397955407398735876150637693443415672nat);
    lemma_fundamental_div_mod_converse(16427285273551614492201218156244185552806397955407398735876150637693443415672int * 16427285273551614492201218156244185552806397955407398735876150637693443415672int, m, 12328796927131761630957455297894416683559623537017060759659165326273142417208int, 15863588702252754585969262696555415891486793977415165641155417598536358715320int);
    assert(mod_pow(3, 4860166240980684553784386846610415819624220458660751301202882nat, 21888242871839275222246405745257275088696311157297823662689037894645226208583nat) == 15863588702252754585969262696555415891486793977415165641155417598536358715320nat);
    lemma_fundamental_div_mod_converse(15863588702252754585969262696555415891486793977415165641155417598536358715320int * 15863588702252754585969262696555415891486793977415165641155417598536358715320int, m, 11497197284758323055908718287403422469647196798849216916272069165303179546504int, 3043020566943416786386356090091990383050525939401981026577819138031550258568int);
    assert(mod_pow(3, 9720332481961369107568773693220831639248440917321502602405764nat, 21888242871839275222246405745257275088696311157297823662689037894645226208583nat) == 3043020566943416786386356090091990383050525939401981026577819138031550258568nat);
    lemma_fundamental_div_mod_converse(3043020566943416786386356090091990383050525939401981026577819138031550258568int * 3043020566943416786386356090091990383050525939401981026577819138031550258568int, m, 423056991146339353554654568694843005657387787151834226078380613868216793603int, 12368745689537516103612805735835804839784439090369076699631744158154919316075int);
    assert(mod_pow(3, 19440664963922738215137547386441663278496881834643005204811528nat, 21888242871839275222246405745257275088696311157297823662689037894645226208583nat) == 12368745689537516103612805735835804839784439090369076699631744158154919316075nat);
    lemma_fundamental_div_mod_converse(12368745689537516103612805735835804839784439090369076699631744158154919316075int * 12368745689537516103612805735835804839784439090369076699631744158154919316075int, m, 6989408461347059189444741344453631656969283755448352250242971030735274077539int, 3213082151032128141876883258806676405002008450356894232383755517294024088388int);
    assert(mod_pow(3, 38881329927845476430275094772883326556993763669286010409623056nat, 21888242871839275222246405745257275088696311157297823662689037894645226208583nat) == 3213082151032128141876883258806676405002008450356894232383755517294024088388nat);
    lemma_fundamental_div_mod_converse(3213082151032128141876883258806676405002008450356894232383755517294024088388int * 3213082151032128141876883258806676405002008450356894232383755517294024088388int, m, 471664033048703445340039787325832419723346594334595960365858162786308185221int, 5811619511354606638157746410726247854990629597944914002640019596469292486701int);
    assert(mod_pow(3, 77762659855690952860550189545766653113987527338572020819246112nat, 21888242871839275222246405745257275088696311157297823662689037894645226208583nat) == 5811619511354606638157746410726247854990629597944914002640019596469292486701nat);
    lemma_fundamental_div_mod_converse(5811619511354606638157746410726247854990629597944914002640019596469292486701int * 5811619511354606638157746410726247854990629597944914002640019596469292486701int, m, 1543062252302184943188998775662498388824783675331563486589402480727614619740int, 7467181714343868411999071005832341675899618616787385096100287861606792634981int);
    lemma_fundamental_div_mod_converse(7467181714343868411999071005832341675899618616787385096100287861606792634981int * 3, m, 1int, 513302271192330013750807272239749939002544693064331625611825690175151696360int);
    assert(mod_pow(3, 155525319711381905721100379091533306227975054677144041638492225nat, 21888242871839275222246405745257275088696311157297823662689037894645226208583nat) == 513302271192330013750807272239749939002544693064331625611825690175151696360nat);
    lemma_fundamental_div_mod_converse(513302271192330013750807272239749939002544693064331625611825690175151696360int * 513302271192330013750807272239749939002544693064331625611825690175151696360int, m, 12037477067206175120827338748569479794832002589041565925008900088271761172int, 3300548654124356320925016568063316670714557553891106804820599283832004710324int);
    assert(mod_pow(3, 311050639422763811442200758183066612455950109354288083276984450nat, 21888242871839275222246405745257275088696311157297823662689037894645226208583nat) == 3300548654124356320925016568063316670714557553891106804820599283832004710324nat);
    lemma_fundamental_div_mod_converse(3300548654124356320925016568063316670714557553891106804820599283832004710324int * 3300548654124356320925016568063316670714557553891106804820599283832004710324int, m, 497692824500658778139393189546297279445099908216825717691602216423815605704int, 11927061596946728389543044089060859764309693593778026764869529674623563627544int);
    assert(mod_pow(3, 622101278845527622884401516366133224911900218708576166553968900nat, 21888242871839275222246405745257275088696311157297823662689037894645226208583nat) == 11927061596946728389543044089060859764309693593778026764869529674623563627544nat);
    lemma_fundamental_div_mod_converse(11927061596946728389543044089060859764309693593778026764869529674623563627544int * 11927061596946728389543044089060859764309693593778026764869529674623563627544int, m, 6499141990076416399989035960201771555021907983233719498616923026265682796564int, 4174269529011002544541837456739197847824742024458394630569047021114135763124int);
    assert(mod_pow(3, 1244202557691055245768803032732266449823800437417152333107937800nat, 21888242871839275222246405745257275088696311157297823662689037894645226208583nat) == 4174269529011002544541837456739197847824742024458394630569047021114135763124nat);
    lemma_fundamental_div_mod_converse(4174269529011002544541837456739197847824742024458394630569047021114135763124int * 4174269529011002544541837456739197847824742024458394630569047021114135763124int, m, 796067834355382825249499989573878903516793172582270523946324398678521409967int, 982979089348660800204633555901327003723420606295103974072685304499041092615int);
    lemma_fundamental_div_mod_converse(982979089348660800204633555901327003723420606295103974072685304499041092615int * 3, m, 0int, 2948937268045982400613900667703981011170261818885311922218055913497123277845int);
    assert(mod_pow(3, 2488405115382110491537606065464532899647600874834304666215875601nat, 21888242871839275222246405745257275088696311157297823662689037894645226208583nat) == 2948937268045982400613900667703981011170261818885311922218055913497123277845nat);
    lemma_fundamental_div_mod_converse(2948937268045982400613900667703981011170261818885311922218055913497123277845int * 2948937268045982400613900667703981011170261818885311922218055913497123277845int, m, 397301467358021667867816448257747872775472983535387037948715589385550570062int, 1859563890243868615236587520953046003434113170485418671374885992238500601879int);
    lemma_fundamental_div_mod_converse(1859563890243868615236587520953046003434113170485418671374885992238500601879int * 3, m, 0int, 5578691670731605845709762562859138010302339511456256014124657976715501805637int);
    assert(mod_pow(3, 4976810230764220983075212130929065799295201749668609332431751203nat, 21888242871839275222246405745257275088696311157297823662689037894645226208583nat) == 5578691670731605845709762562859138010302339511456256014124657976715501805637nat);
    lemma_fundamental_div_mod_converse(5578691670731605845709762562859138010302339511456256014124657976715501805637int * 5578691670731605845709762562859138010302339511456256014124657976715501805637int, m, 1421850120145117984026324531407770864177299329030090925897040507165896687895int, 434745488207508896566106314993001934272005528142503580281399635839203772984int);
    assert(mod_pow(3, 9953620461528441966150424261858131598590403499337218664863502406nat, 21888242871839275222246405745257275088696311157297823662689037894645226208583nat) == 434745488207508896566106314993001934272005528142503580281399635839203772984nat);
    lemma_fundamental_div_mod_converse(434745488207508896566106314993001934272005528142503580281399635839203772984int * 434745488207508896566106314993001934272005528142503580281399635839203772984int, m, 8634938885841375347854349883955979189459208291773237475061810269260068837int, 3899262939256186282042207944930385754814006699703686243551216424085908036285int);
    assert(mod_pow(3, 19907240923056883932300848523716263197180806998674437329727004812nat, 21888242871839275222246405745257275088696311157297823662689037894645226208583nat) == 3899262939256186282042207944930385754814006699703686243551216424085908036285nat);
    lemma_fundamental_div_mod_converse(3899262939256186282042207944930385754814006699703686243551216424085908036285int * 3899262939256186282042207944930385754814006699703686243551216424085908036285int, m, 694630974193826438098217671232639997930020319080899419430125842420904610781int, 12710653416624482319288578257891976256645608784230217219900957089016940067902int);
    assert(mod_pow(3, 39814481846113767864601697047432526394361613997348874659454009624nat, 21888242871839275222246405745257275088696311157297823662689037894645226208583nat) == 12710653416624482319288578257891976256645608784230217219900957089016940067902nat);
    lemma_fundamental_div_mod_converse(12710653416624482319288578257891976256645608784230217219900957089016940067902int * 12710653416624482319288578257891976256645608784230217219900957089016940067902int, m, 7381163998568681527622291839048920478705471506270515406651278089438297527274int, 5328201080801575644951618863687490820441449243929327999446269859217315288862int);
    assert(mod_pow(3, 79628963692227535729203394094865052788723227994697749318908019248nat, 21888242871839275222246405745257275088696311157297823662689037894645226208583nat) == 5328201080801575644951618863687490820441449243929327999446269859217315288862nat);
    lemma_fundamental_div_mod_converse(5328201080801575644951618863687490820441449243929327999446269859217315288862int * 5328201080801575644951618863687490820441449243929327999446269859217315288862int, m, 1297030872860991883171958672129144618620519034340460375804928589433151016418int, 15299832442126287349060917102548179115572605384903968543571544542915575739350int);
    assert(mod_pow(3, 159257927384455071458406788189730105577446455989395498637816038496nat, 21888242871839275222246405745257275088696311157297823662689037894645226208583nat) == 15299832442126287349060917102548179115572605384903968543571544542915575739350nat);
    lemma_fundamental_div_mod_converse(15299832442126287349060917102548179115572605384903968543571544542915575739350int * 15299832442126287349060917102548179115572605384903968543571544542915575739350int, m, 10694548398780162842800977071940313092411209250095557564529278563150112758009int, 5100426019569645010071346346567482962221347528197250167835004901214700631253int);
    lemma_fundamental_div_mod_converse(5100426019569645010071346346567482962221347528197250167835004901214700631253int * 3, m, 0int, 15301278058708935030214039039702448886664042584591750503505014703644101893759int);
    assert(mod_pow(3, 318515854768910142916813576379460211154892911978790997275632076993nat, 21888242871839275222246405745257275088696311157297823662689037894645226208583nat) == 15301278058708935030214039039702448886664042584591750503505014703644101893759nat);
    lemma_fundamental_div_mod_converse(15301278058708935030214039039702448886664042584591750503505014703644101893759int * 15301278058708935030214039039702448886664042584591750503505014703644101893759int, m, 10696569459723540624205379290500479059089404368940270321770800489167298153402int, 8318178245148353603224733127956500599418736779704310369204561000420540100715int);
    assert(mod_pow(3, 637031709537820285833627152758920422309785823957581994551264153986nat, 21888242871839275222246405745257275088696311157297823662689037894645226208583nat) == 8318178245148353603224733127956500599418736779704310369204561000420540100715nat);
    lemma_fundamental_div_mod_converse(8318178245148353603224733127956500599418736779704310369204561000420540100715int * 8318178245148353603224733127956500599418736779704310369204561000420540100715int, m, 3161153214682194024529075883090194544771456164234827316614928730248924154591int, 21195179747654550359967464362904133226219772789281121049191456873902840456672int);
    lemma_fundamental_div_mod_converse(21195179747654550359967464362904133226219772789281121049191456873902840456672int * 3, m, 2int, 19809053499285100635409581598197849501266696053247715822196294832418068952850int);
    assert(mod_pow(3, 1274063419075640571667254305517840844619571647915163989102528307973nat, 21888242871839275222246405745257275088696311157297823662689037894645226208583nat) == 19809053499285100635409581598197849501266696053247715822196294832418068952850nat);
    lemma_fundamental_div_mod_converse(19809053499285100635409581598197849501266696053247715822196294832418068952850int * 19809053499285100635409581598197849501266696053247715822196294832418068952850int, m, 17927368717312022652922460985403483673676506958633920033700575333465935678611int, 3329090809321942314996196561632927593260486199342815613414112010372785404287int);
    lemma_fundamental_div_mod_converse(3329090809321942314996196561632927593260486199342815613414112010372785404287int * 3, m, 0int, 9987272427965826944988589684898782779781458598028446840242336031118356212861int);
    assert(mod_pow(3, 2548126838151281143334508611035681689239143295830327978205056615947nat, 21888242871839275222246405745257275088696311157297823662689037894645226208583nat) == 9987272427965826944988589684898782779781458598028446840242336031118356212861nat);
    lemma_fundamental_div_mod_converse(9987272427965826944988589684898782779781458598028446840242336031118356212861int * 9987272427965826944988589684898782779781458598028446840242336031118356212861int, m, 4557040559831140624370269080313973497285627587434203029634012184435671395057int, 7345751134269432652363990423210607571023500860297818105888714854103864631090int);
    assert(mod_pow(3, 5096253676302562286669017222071363378478286591660655956410113231894nat, 21888242871839275222246405745257275088696311157297823662689037894645226208583nat) == 7345751134269432652363990423210607571023500860297818105888714854103864631090nat);
    lemma_fundamental_div_mod_converse(7345751134269432652363990423210607571023500860297818105888714854103864631090int * 7345751134269432652363990423210607571023500860297818105888714854103864631090int, m, 2465253151775100773117774442422808316731437924314957985293002504074078556103int, 4594776167689375432209565644093232603524039145607468282799598505820048956051int);
    lemma_fundamental_div_mod_converse(4594776167689375432209565644093232603524039145607468282799598505820048956051int * 3, m, 0int, 13784328503068126296628696932279697810572117436822404848398795517460146868153int);
    assert(mod_pow(3, 10192507352605124573338034444142726756956573183321311912820226463789nat, 21888242871839275222246405745257275088696311157297823662689037894645226208583nat) == 13784328503068126296628696932279697810572117436822404848398795517460146868153nat);
    lemma_fundamental_div_mod_converse(13784328503068126296628696932279697810572117436822404848398795517460146868153int * 13784328503068126296628696932279697810572117436822404848398795517460146868153int, m, 8680811584238875446011079000339646565912572615980007042843605731027824478422int, 6992561919544157197630377485733444276659646716154292828231485313987810935383int);
    lemma_fundamental_div_mod_converse(6992561919544157197630377485733444276659646716154292828231485313987810935383int * 3, m, 0int, 20977685758632471592891132457200332829978940148462878484694455941963432806149int);
    assert(mod_pow(3, 20385014705210249146676068888285453513913146366642623825640452927579nat, 21888242871839275222246405745257275088696311157297823662689037894645226208583nat) == 20977685758632471592891132457200332829978940148462878484694455941963432806149nat);
    lemma_fundamental_div_mod_converse(20977685758632471592891132457200332829978940148462878484694455941963432806149int * 20977685758632471592891132457200332829978940148462878484694455941963432806149int, m, 20105008079661945564544888430652146073067571928169213860645748091182565174476int, 20123497746369285134235028177323850691022996805334668725030040438693248482693int);
    assert(mod_pow(3, 40770029410420498293352137776570907027826292733285247651280905855158nat, 21888242871839275222246405745257275088696311157297823662689037894645226208583nat) == 20123497746369285134235028177323850691022996805334668725030040438693248482693nat);
    lemma_fundamental_div_mod_converse(20123497746369285134235028177323850691022996805334668725030040438693248482693int * 20123497746369285134235028177323850691022996805334668725030040438693248482693int, m, 18501035643620908031515580741192120894726218711626818020632687710329256813901int, 1051277314039361692186598299426723621604308875253328146159032716686080619966int);
    lemma_fundamental_div_mod_converse(1051277314039361692186598299426723621604308875253328146159032716686080619966int * 3, m, 0int, 3153831942118085076559794898280170864812926625759984438477098150058241859898int);
    assert(mod_pow(3, 81540058820840996586704275553141814055652585466570495302561811710317nat, 21888242871839275222246405745257275088696311157297823662689037894645226208583nat) == 3153831942118085076559794898280170864812926625759984438477098150058241859898nat);
    lemma_fundamental_div_mod_converse(3153831942118085076559794898280170864812926625759984438477098150058241859898int * 3153831942118085076559794898280170864812926625759984438477098150058241859898int, m, 454429164431530818182322417975568417188848049481056192421638120068014141454int, 3357853580065631162022109813720981823066806660321654991951343187985989670722int);
    lemma_fundamental_div_mod_converse(3357853580065631162022109813720981823066806660321654991951343187985989670722int * 3, m, 0int, 10073560740196893486066329441162945469200419980964964975854029563957969012166int);
    assert(mod_pow(3, 163080117641681993173408551106283628111305170933140990605123623420635nat, 21888242871839275222246405745257275088696311157297823662689037894645226208583nat) == 10073560740196893486066329441162945469200419980964964975854029563957969012166nat);
    lemma_fundamental_div_mod_converse(10073560740196893486066329441162945469200419980964964975854029563957969012166int * 10073560740196893486066329441162945469200419980964964975854029563957969012166int, m, 4636124817355385781071351444098987704464653182154199812505801547375121974528int, 21707930818346291385208202197640188451336081700093699310886583872431715037732int);
    assert(mod_pow(3, 326160235283363986346817102212567256222610341866281981210247246841270nat, 21888242871839275222246405745257275088696311157297823662689037894645226208583nat) == 21707930818346291385208202197640188451336081700093699310886583872431715037732nat);
    lemma_fundamental_div_mod_converse(21707930818346291385208202197640188451336081700093699310886583872431715037732int * 21707930818346291385208202197640188451336081700093699310886583872431715037732int, m, 21529104148436869942894404731123474129675276310388926804993696468996306772466int, 19474897698491195912596543327657445729204428542181326857791737580139346428146int);
    assert(mod_pow(3, 652320470566727972693634204425134512445220683732563962420494493682540nat, 21888242871839275222246405745257275088696311157297823662689037894645226208583nat) == 19474897698491195912596543327657445729204428542181326857791737580139346428146nat);
    lemma_fundamental_div_mod_converse(19474897698491195912596543327657445729204428542181326857791737580139346428146int * 19474897698491195912596543327657445729204428542181326857791737580139346428146int, m, 17327642177008947661731780164725605815402804584426742743833521276463601453798int, 18332153993895142367765325432802086461723348749363824056148938749397955449082int);
    assert(mod_pow(3, 1304640941133455945387268408850269024890441367465127924840988987365080nat, 21888242871839275222246405745257275088696311157297823662689037894645226208583nat) == 18332153993895142367765325432802086461723348749363824056148938749397955449082nat);
    lemma_fundamental_div_mod_converse(18332153993895142367765325432802086461723348749363824056148938749397955449082int * 18332153993895142367765325432802086461723348749363824056148938749397955449082int, m, 15353807613687436281717068414687664028332814362966264615170480427859856816809int, 5708655197623308946922226439329859062003140941001574426140877269138040171077int);
    assert(mod_pow(3, 2609281882266911890774536817700538049780882734930255849681977974730160nat, 21888242871839275222246405745257275088696311157297823662689037894645226208583nat) == 5708655197623308946922226439329859062003140941001574426140877269138040171077nat);
    lemma_fundamental_div_mod_converse(5708655197623308946922226439329859062003140941001574426140877269138040171077int * 5708655197623308946922226439329859062003140941001574426140877269138040171077int, m, 1488869817288041594344225040134209449298836425424082172747187314328764098882int, 13097885776829107936768909259064169740023255892484454848172422647128058235723int);
    lemma_fundamental_div_mod_converse(13097885776829107936768909259064169740023255892484454848172422647128058235723int * 3, m, 1int, 17405414458648048588060322031935234131373456520155540881828230046738948498586int);
    assert(mod_pow(3, 5218563764533823781549073635401076099561765469860511699363955949460321nat, 21888242871839275222246405745257275088696311157297823662689037894645226208583nat) == 17405414458648048588060322031935234131373456520155540881828230046738948498586nat);
    lemma_fundamental_div_mod_converse(17405414458648048588060322031935234131373456520155540881828230046738948498586int * 17405414458648048588060322031935234131373456520155540881828230046738948498586int, m, 13840693117814335472161678238045563841302300279659423326328914527038886216576int, 617664689660542068269922116967169280677852502322686654746191202033755927588int);
    lemma_fundamental_div_mod_converse(617664689660542068269922116967169280677852502322686654746191202033755927588int * 3, m, 0int, 1852994068981626204809766350901507842033557506968059964238573606101267782764int);
    assert(mod_pow(3, 10437127529067647563098147270802152199123530939721023398727911898920643nat, 21888242871839275222246405745257275088696311157297823662689037894645226208583nat) == 1852994068981626204809766350901507842033557506968059964238573606101267782764nat);
    lemma_fundamental_div_mod_converse(1852994068981626204809766350901507842033557506968059964238573606101267782764int * 1852994068981626204809766350901507842033557506968059964238573606101267782764int, m, 156869011358542112533002689039751380403706220542290351773754458360861824149int, 643974620523084738643798920909660951063072284663122063522495955932155008829int);
    lemma_fundamental_div_mod_converse(643974620523084738643798920909660951063072284663122063522495955932155008829int * 3, m, 0int, 1931923861569254215931396762728982853189216853989366190567487867796465026487int);
    assert(mod_pow(3, 20874255058135295126196294541604304398247061879442046797455823797841287nat, 21888242871839275222246405745257275088696311157297823662689037894645226208583nat) == 1931923861569254215931396762728982853189216853989366190567487867796465026487nat);
    lemma_fundamental_div_mod_converse(1931923861569254215931396762728982853189216853989366190567487867796465026487int * 1931923861569254215931396762728982853189216853989366190567487867796465026487int, m, 170517561814089565627473734115168590470431139518128565216609646627837832517int, 8985531127890419907728134132080843916660781311414823160547189779025149667758int);
    lemma_fundamental_div_mod_converse(8985531127890419907728134132080843916660781311414823160547189779025149667758int * 3, m, 1int, 5068350511831984500937996650985256661286032776946645818952531442430222794691int);
    assert(mod_pow(3, 41748510116270590252392589083208608796494123758884093594911647595682575nat, 21888242871839275222246405745257275088696311157297823662689037894645226208583nat) == 5068350511831984500937996650985256661286032776946645818952531442430222794691nat);
    lemma_fundamental_div_mod_converse(5068350511831984500937996650985256661286032776946645818952531442430222794691int * 5068350511831984500937996650985256661286032776946645818952531442430222794691int, m, 1173606171185040149881269605652667150127538925503524475149135698211670904108int, 12004267407093884886543033919021686760753272578709827147520822504793738226517int);
    lemma_fundamental_div_mod_converse(12004267407093884886543033919021686760753272578709827147520822504793738226517int * 3, m, 1int, 14124559349442379437382696011807785193563506578831657779873429619735988470968int);
    assert(mod_pow(3, 83497020232541180504785178166417217592988247517768187189823295191365151nat, 21888242871839275222246405745257275088696311157297823662689037894645226208583nat) == 14124559349442379437382696011807785193563506578831657779873429619735988470968nat);
    lemma_fundamental_div_mod_converse(14124559349442379437382696011807785193563506578831657779873429619735988470968int * 14124559349442379437382696011807785193563506578831657779873429619735988470968int, m, 9114627335965585656822651564933724344175874659537489911003919675797700918401int, 20916011969207075424824954956631304625757058471426342271908634599760290021241int);
    assert(mod_pow(3, 166994040465082361009570356332834435185976495035536374379646590382730302nat, 21888242871839275222246405745257275088696311157297823662689037894645226208583nat) == 20916011969207075424824954956631304625757058471426342271908634599760290021241nat);
    lemma_fundamental_div_mod_converse(20916011969207075424824954956631304625757058471426342271908634599760290021241int * 20916011969207075424824954956631304625757058471426342271908634599760290021241int, m, 19986965571314135849867872388200701386207125537502912792603757421210322311935int, 14008026994544455324493929899208393038129397028564366973786873873409130841976int);
    assert(mod_pow(3, 333988080930164722019140712665668870371952990071072748759293180765460604nat, 21888242871839275222246405745257275088696311157297823662689037894645226208583nat) == 14008026994544455324493929899208393038129397028564366973786873873409130841976nat);
    lemma_fundamental_div_mod_converse(14008026994544455324493929899208393038129397028564366973786873873409130841976int * 14008026994544455324493929899208393038129397028564366973786873873409130841976int, m, 8964850281899185578925666986751164560902282458816872975686815741045961922174int, 17271951609083864176880679196497464039638817924665884580025828609473746765134int);
    lemma_fundamental_div_mod_converse(17271951609083864176880679196497464039638817924665884580025828609473746765134int * 3, m, 2int, 8039369083573042086149226098977841941523831459402006414699410039130787878236int);
    assert(mod_pow(3, 667976161860329444038281425331337740743905980142145497518586361530921209nat, 21888242871839275222246405745257275088696311157297823662689037894645226208583nat) == 8039369083573042086149226098977841941523831459402006414699410039130787878236nat);
    lemma_fundamental_div_mod_converse(8039369083573042086149226098977841941523831459402006414699410039130787878236int * 8039369083573042086149226098977841941523831459402006414699410039130787878236int, m, 2952793225127397132871192612384632336671611272642081871948601032187642969408int, 8798474168371511640177073555305740268066763101860839650493525375095066442832int);
    lemma_fundamental_div_mod_converse(8798474168371511640177073555305740268066763101860839650493525375095066442832int * 3, m, 1int, 4507179633275259698284814920659945715503978148284695288791538230639973119913int);
    assert(mod_pow(3, 1335952323720658888076562850662675481487811960284290995037172723061842419nat, 21888242871839275222246405745257275088696311157297823662689037894645226208583nat) == 4507179633275259698284814920659945715503978148284695288791538230639973119913nat);
    lemma_fundamental_div_mod_converse(4507179633275259698284814920659945715503978148284695288791538230639973119913int * 4507179633275259698284814920659945715503978148284695288791538230639973119913int, m, 928108682161395315247369350340948246459430635434515938247076557907575001677int, 6212875714710109179035805348606523019850486629888447945583927885418500333878int);
    lemma_fundamental_div_mod_converse(6212875714710109179035805348606523019850486629888447945583927885418500333878int * 3, m, 0int, 18638627144130327537107416045819569059551459889665343836751783656255501001634int);
    assert(mod_pow(3, 2671904647441317776153125701325350962975623920568581990074345446123684839nat, 21888242871839275222246405745257275088696311157297823662689037894645226208583nat) == 18638627144130327537107416045819569059551459889665343836751783656255501001634nat);
    lemma_fundamental_div_mod_converse(18638627144130327537107416045819569059551459889665343836751783656255501001634int * 18638627144130327537107416045819569059551459889665343836751783656255501001634int, m, 15871462312073653544309569664198709001006267889476978140412310854500498139220int, 17903314408198015579267981258660882942312782675649917887380770310210177744696int);
    lemma_fundamental_div_mod_converse(17903314408198015579267981258660882942312782675649917887380770310210177744696int * 3, m, 2int, 9933457480915496293311132285468098649545725712354106336764235141340080816922int);
    assert(mod_pow(3, 5343809294882635552306251402650701925951247841137163980148690892247369679nat, 21888242871839275222246405745257275088696311157297823662689037894645226208583nat) == 9933457480915496293311132285468098649545725712354106336764235141340080816922nat);
    lemma_fundamental_div_mod_converse(9933457480915496293311132285468098649545725712354106336764235141340080816922int * 9933457480915496293311132285468098649545725712354106336764235141340080816922int, m, 4508062986275904240972185724559564555006113074842187010933076266193820063800int, 20403068706909798396969007738022388896199442941604562282496460851345713958684int);
    lemma_fundamental_div_mod_converse(20403068706909798396969007738022388896199442941604562282496460851345713958684int * 3, m, 2int, 17432720377050844746414211723552616511205706510218039522111306764746689458886int);
    assert(mod_pow(3, 10687618589765271104612502805301403851902495682274327960297381784494739359nat, 21888242871839275222246405745257275088696311157297823662689037894645226208583nat) == 17432720377050844746414211723552616511205706510218039522111306764746689458886nat);
    lemma_fundamental_div_mod_converse(17432720377050844746414211723552616511205706510218039522111306764746689458886int * 17432720377050844746414211723552616511205706510218039522111306764746689458886int, m, 13884154224888997029621928472018456360336273687269353000161990127688034251704int, 10353804148741220066924753619681366363544710025412751546552094800254057185564int);
    lemma_fundamental_div_mod_converse(10353804148741220066924753619681366363544710025412751546552094800254057185564int * 3, m, 1int, 9173169574384384978527855113786824001937818918940430976967246506116945348109int);
    assert(mod_pow(3, 21375237179530542209225005610602807703804991364548655920594763568989478719nat, 21888242871839275222246405745257275088696311157297823662689037894645226208583nat) == 9173169574384384978527855113786824001937818918940430976967246506116945348109nat);
    lemma_fundamental_div_mod_converse(9173169574384384978527855113786824001937818918940430976967246506116945348109int * 9173169574384384978527855113786824001937818918940430976967246506116945348109int, m, 3844394478492941683389842570198562048448004006897608369681250633371504797698int, 17863841353813972510312582704980762594150325189794733599654745612260223633947int);
    assert(mod_pow(3, 42750474359061084418450011221205615407609982729097311841189527137978957438nat, 21888242871839275222246405745257275088696311157297823662689037894645226208583nat) == 17863841353813972510312582704980762594150325189794733599654745612260223633947nat);
    lemma_fundamental_div_mod_converse(17863841353813972510312582704980762594150325189794733599654745612260223633947int * 17863841353813972510312582704980762594150325189794733599654745612260223633947int, m, 14579371664630051006503722674437595656305560974101419395796031238436027156560int, 8559822574702439146816717108444129303879694466560465927082771332147294044329int);
    lemma_fundamental_div_mod_converse(8559822574702439146816717108444129303879694466560465927082771332147294044329int * 3, m, 1int, 3791224852268042218203745580075112822942772242383574118559276101796655924404int);
    assert(mod_pow(3, 85500948718122168836900022442411230815219965458194623682379054275957914877nat, 21888242871839275222246405745257275088696311157297823662689037894645226208583nat) == 3791224852268042218203745580075112822942772242383574118559276101796655924404nat);
    lemma_fundamental_div_mod_converse(3791224852268042218203745580075112822942772242383574118559276101796655924404int * 3791224852268042218203745580075112822942772242383574118559276101796655924404int, m, 656671527477757691406034786977443643250216414034617322867156071566919032932int, 20520580597909409563553876103978390537044495244382684920266698702736484699860int);
    assert(mod_pow(3, 171001897436244337673800044884822461630439930916389247364758108551915829754nat, 21888242871839275222246405745257275088696311157297823662689037894645226208583nat) == 20520580597909409563553876103978390537044495244382684920266698702736484699860nat);
    lemma_fundamental_div_mod_converse(20520580597909409563553876103978390537044495244382684920266698702736484699860int * 20520580597909409563553876103978390537044495244382684920266698702736484699860int, m, 19238375165192574187723618662002260794851789269174481269317491116351300489923int, 2711794849043810499446048604525008340564745461474921080607002591506596410491int);
    lemma_fundamental_div_mod_converse(2711794849043810499446048604525008340564745461474921080607002591506596410491int * 3, m, 0int, 8135384547131431498338145813575025021694236384424763241821007774519789231473int);
    assert(mod_pow(3, 342003794872488675347600089769644923260879861832778494729516217103831659509nat, 21888242871839275222246405745257275088696311157297823662689037894645226208583nat) == 8135384547131431498338145813575025021694236384424763241821007774519789231473nat);
    lemma_fundamental_div_mod_converse(8135384547131431498338145813575025021694236384424763241821007774519789231473int * 8135384547131431498338145813575025021694236384424763241821007774519789231473int, m, 3023745766950336571381048487701739736495589891009414241070225974712087287734int, 19382888966070477739597629223917750850378537100948731114884679476531352328807int);
    assert(mod_pow(3, 684007589744977350695200179539289846521759723665556989459032434207663319018nat, 21888242871839275222246405745257275088696311157297823662689037894645226208583nat) == 19382888966070477739597629223917750850378537100948731114884679476531352328807nat);
    lemma_fundamental_div_mod_converse(19382888966070477739597629223917750850378537100948731114884679476531352328807int * 19382888966070477739597629223917750850378537100948731114884679476531352328807int, m, 17164300801613263549592758563706696219518957834822151243195594745027385247649int, 20818684810868523036523422214813601703475020692274229492534440539951457671882int);
    assert(mod_pow(3, 1368015179489954701390400359078579693043519447331113978918064868415326638036nat, 21888242871839275222246405745257275088696311157297823662689037894645226208583nat) == 20818684810868523036523422214813601703475020692274229492534440539951457671882nat);
    lemma_fundamental_div_mod_converse(20818684810868523036523422214813601703475020692274229492534440539951457671882int * 20818684810868523036523422214813601703475020692274229492534440539951457671882int, m, 19801390170606579370851736732459899610829491463139868076904001604361752450140int, 14592161914559516814830937163504850059081558519237952668785816037672625870304int);
    assert(mod_pow(3, 2736030358979909402780800718157159386087038894662227957836129736830653276072nat, 21888242871839275222246405745257275088696311157297823662689037894645226208583nat) == 14592161914559516814830937163504850059081558519237952668785816037672625870304nat);
    lemma_fundamental_div_mod_converse(14592161914559516814830937163504850059081558519237952668785816037672625870304int * 14592161914559516814830937163504850059081558519237952668785816037672625870304int, m, 9728107943039677876553958109003233372688161955740459708297071208165622845479int, 14592161914559516815320706160204432708335008269937607335342531765070196506159int);
    lemma_fundamental_div_mod_converse(14592161914559516815320706160204432708335008269937607335342531765070196506159int * 3, m, 2int, 1469306990098747947612402495217174680649519505920137101311int);
    assert(mod_pow(3, 5472060717959818805561601436314318772174077789324455915672259473661306552145nat, 21888242871839275222246405745257275088696311157297823662689037894645226208583nat) == 1469306990098747947612402495217174680649519505920137101311nat);
    lemma_fundamental_div_mod_converse(1469306990098747947612402495217174680649519505920137101311int * 1469306990098747947612402495217174680649519505920137101311int, m, 98631171254526212680418450848383204169int, 7296080957279758407415468581752425029565437052432607887563012631548408736194int);
    lemma_fundamental_div_mod_converse(7296080957279758407415468581752425029565437052432607887563012631548408736194int * 3, m, 0int, 21888242871839275222246405745257275088696311157297823662689037894645226208582int);
    assert(mod_pow(3, 10944121435919637611123202872628637544348155578648911831344518947322613104291nat, 21888242871839275222246405745257275088696311157297823662689037894645226208583nat) == 21888242871839275222246405745257275088696311157297823662689037894645226208582nat);
}

} // verus!
