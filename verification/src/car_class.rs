//! Class labels.
//!
//! A car's level is shown as a class label: level 1 is the novice class
//! `N`, levels 74 and above collapse to the top class `SSSSSS`, and every
//! level in between combines a letter run (`C`, `B`, `A`, `S`, `SS`, ...,
//! `SSSSS`, nine levels each) with a digit counting down from 9 to 1
//! inside the run. The mapping is invertible on levels 1 through 74.

use vstd::prelude::*;
use vstd::arithmetic::div_mod::lemma_fundamental_div_mod;

verus! {

/// The digit character shown for a suffix value in 1..=9.
pub open spec fn spec_digit_char(d: int) -> char {
    if d == 1 {
        '1'
    } else if d == 2 {
        '2'
    } else if d == 3 {
        '3'
    } else if d == 4 {
        '4'
    } else if d == 5 {
        '5'
    } else if d == 6 {
        '6'
    } else if d == 7 {
        '7'
    } else if d == 8 {
        '8'
    } else {
        '9'
    }
}

/// The suffix value of a digit character, if it is one of '1'..='9'.
pub open spec fn spec_digit_value(c: char) -> Option<int> {
    if c == '1' {
        Some(1)
    } else if c == '2' {
        Some(2)
    } else if c == '3' {
        Some(3)
    } else if c == '4' {
        Some(4)
    } else if c == '5' {
        Some(5)
    } else if c == '6' {
        Some(6)
    } else if c == '7' {
        Some(7)
    } else if c == '8' {
        Some(8)
    } else if c == '9' {
        Some(9)
    } else {
        None
    }
}

/// The letter run of the class tier `tier`, for tiers 0..=7.
pub open spec fn spec_class_letters(tier: int) -> Seq<char> {
    if tier == 0 {
        seq!['C']
    } else if tier == 1 {
        seq!['B']
    } else if tier == 2 {
        seq!['A']
    } else if tier == 3 {
        seq!['S']
    } else if tier == 4 {
        seq!['S', 'S']
    } else if tier == 5 {
        seq!['S', 'S', 'S']
    } else if tier == 6 {
        seq!['S', 'S', 'S', 'S']
    } else {
        seq!['S', 'S', 'S', 'S', 'S']
    }
}

/// The class label of a level: `N` for level 1, `SSSSSS` for levels 74
/// and above, else the letter run of tier `(level-2)/9` followed by the
/// digit `9 - (level-2)%9`.
pub open spec fn spec_class_label(level: int) -> Seq<char> {
    if level == 1 {
        seq!['N']
    } else if level >= 74 {
        seq!['S', 'S', 'S', 'S', 'S', 'S']
    } else {
        spec_class_letters((level - 2) / 9) + seq![spec_digit_char(9 - (level - 2) % 9)]
    }
}

/// The tier whose letter run is `p`, if `p` is one.
pub open spec fn spec_letters_tier(p: Seq<char>) -> Option<int> {
    if p.len() == 1 && p[0] == 'C' {
        Some(0)
    } else if p.len() == 1 && p[0] == 'B' {
        Some(1)
    } else if p.len() == 1 && p[0] == 'A' {
        Some(2)
    } else if p.len() == 1 && p[0] == 'S' {
        Some(3)
    } else if 2 <= p.len() <= 5 && (forall|i: int| 0 <= i < p.len() ==> p[i] == 'S') {
        Some(p.len() as int + 2)
    } else {
        None
    }
}

/// The level whose class label is `s`, if `s` is a class label.
pub open spec fn spec_class_level(s: Seq<char>) -> Option<int> {
    if s.len() == 1 && s[0] == 'N' {
        Some(1)
    } else if s.len() == 6 && (forall|i: int| 0 <= i < s.len() ==> s[i] == 'S') {
        Some(74)
    } else if s.len() >= 2 && spec_digit_value(s.last()) is Some && spec_letters_tier(
        s.drop_last(),
    ) is Some {
        Some(2 + 9 * spec_letters_tier(s.drop_last())->Some_0 + (9 - spec_digit_value(
            s.last(),
        )->Some_0))
    } else {
        None
    }
}

/// Renders the class label of `level`.
pub fn class_label(level: u32) -> (label: String)
    requires
        1 <= level,
    ensures
        label@ == spec_class_label(level as int),
{
    proof {
        reveal_strlit("N");
        reveal_strlit("SSSSSS");
        reveal_strlit("C");
        reveal_strlit("B");
        reveal_strlit("A");
        reveal_strlit("S");
        reveal_strlit("SS");
        reveal_strlit("SSS");
        reveal_strlit("SSSS");
        reveal_strlit("SSSSS");
        reveal_strlit("1");
        reveal_strlit("2");
        reveal_strlit("3");
        reveal_strlit("4");
        reveal_strlit("5");
        reveal_strlit("6");
        reveal_strlit("7");
        reveal_strlit("8");
        reveal_strlit("9");
    }
    if level == 1 {
        let label = String::from_str("N");
        proof {
            assert(label@ =~= spec_class_label(level as int));
        }
        return label;
    }
    if level >= 74 {
        let label = String::from_str("SSSSSS");
        proof {
            assert(label@ =~= spec_class_label(level as int));
        }
        return label;
    }
    let k = level - 2;
    let letters: &str = if k / 9 == 0 {
        "C"
    } else if k / 9 == 1 {
        "B"
    } else if k / 9 == 2 {
        "A"
    } else if k / 9 == 3 {
        "S"
    } else if k / 9 == 4 {
        "SS"
    } else if k / 9 == 5 {
        "SSS"
    } else if k / 9 == 6 {
        "SSSS"
    } else {
        "SSSSS"
    };
    let digit: &str = if k % 9 == 0 {
        "9"
    } else if k % 9 == 1 {
        "8"
    } else if k % 9 == 2 {
        "7"
    } else if k % 9 == 3 {
        "6"
    } else if k % 9 == 4 {
        "5"
    } else if k % 9 == 5 {
        "4"
    } else if k % 9 == 6 {
        "3"
    } else if k % 9 == 7 {
        "2"
    } else {
        "1"
    };
    proof {
        assert(letters@ =~= spec_class_letters((level - 2) / 9));
        assert(digit@ =~= seq![spec_digit_char(9 - (level - 2) % 9)]);
    }
    let label = String::from_str(letters).concat(digit);
    proof {
        assert(label@ =~= spec_class_label(level as int));
    }
    label
}

/// Reads a class label back to its level, `None` where the text is no
/// class label.
pub fn class_level(label: &str) -> (level: Option<u32>)
    ensures
        match level {
            Some(v) => spec_class_level(label@) == Some(v as int),
            None => spec_class_level(label@) is None,
        },
{
    let n = label.unicode_len();
    if n == 0 {
        return None;
    }
    if n == 1 {
        let c = label.get_char(0);
        if c == 'N' {
            return Some(1);
        }
        return None;
    }
    // A run of six 'S' characters is the top label; it has no digit suffix.
    if n == 6 {
        let mut all_s = true;
        let mut i: usize = 0;
        while i < n
            invariant
                n == label@.len(),
                0 <= i <= n,
                all_s == (forall|j: int| 0 <= j < i ==> label@[j] == 'S'),
            decreases n - i,
        {
            if label.get_char(i) != 'S' {
                all_s = false;
            }
            i = i + 1;
        }
        if all_s {
            return Some(74);
        }
    }
    let last = label.get_char(n - 1);
    let digit: u32 = if last == '1' {
        1
    } else if last == '2' {
        2
    } else if last == '3' {
        3
    } else if last == '4' {
        4
    } else if last == '5' {
        5
    } else if last == '6' {
        6
    } else if last == '7' {
        7
    } else if last == '8' {
        8
    } else if last == '9' {
        9
    } else {
        proof {
            assert(label@.last() == label@[n - 1]);
        }
        return None;
    };
    assert(spec_digit_value(label@.last()) == Some(digit as int));
    let tier: u32 = if n == 2 {
        let c = label.get_char(0);
        proof {
            assert(label@.drop_last() =~= seq![label@[0]]);
        }
        if c == 'C' {
            0
        } else if c == 'B' {
            1
        } else if c == 'A' {
            2
        } else if c == 'S' {
            3
        } else {
            return None;
        }
    } else if n <= 6 {
        let mut i: usize = 0;
        while i < n - 1
            invariant
                n == label@.len(),
                2 < n <= 6,
                0 <= i <= n - 1,
                forall|j: int| 0 <= j < i ==> label@[j] == 'S',
            decreases n - i,
        {
            if label.get_char(i) != 'S' {
                proof {
                    assert(label@.drop_last()[i as int] != 'S');
                }
                return None;
            }
            i = i + 1;
        }
        proof {
            assert(forall|j: int|
                0 <= j < label@.drop_last().len() ==> label@.drop_last()[j] == label@[j]);
            assert(spec_letters_tier(label@.drop_last()) == Some((n - 1 + 2) as int));
        }
        (n as u32 - 1) + 2
    } else {
        proof {
            assert(label@.drop_last().len() > 5);
        }
        return None;
    };
    assert(spec_letters_tier(label@.drop_last()) == Some(tier as int));
    Some(2 + 9 * tier + (9 - digit))
}

/// The letter run of a tier reads back to that tier.
proof fn lemma_letters_tier_inverse(tier: int)
    requires
        0 <= tier <= 7,
    ensures
        spec_letters_tier(spec_class_letters(tier)) == Some(tier),
{
    let p = spec_class_letters(tier);
    if tier == 4 {
        assert(forall|i: int| 0 <= i < p.len() ==> p[i] == 'S');
    } else if tier == 5 {
        assert(forall|i: int| 0 <= i < p.len() ==> p[i] == 'S');
    } else if tier == 6 {
        assert(forall|i: int| 0 <= i < p.len() ==> p[i] == 'S');
    } else if tier == 7 {
        assert(forall|i: int| 0 <= i < p.len() ==> p[i] == 'S');
    }
}

/// Reading a rendered class label back gives the level it was rendered
/// from, for every level the class picker offers (1 through 74).
pub proof fn lemma_class_label_round_trip(level: int)
    requires
        1 <= level <= 74,
    ensures
        spec_class_level(spec_class_label(level)) == Some(level),
{
    let s = spec_class_label(level);
    if level == 1 {
    } else if level == 74 {
        assert(forall|i: int| 0 <= i < s.len() ==> s[i] == 'S');
    } else {
        let k = level - 2;
        let t = k / 9;
        let d = 9 - k % 9;
        lemma_fundamental_div_mod(k, 9);
        assert(0 <= t <= 7);
        assert(1 <= d <= 9);
        let letters = spec_class_letters(t);
        assert(s.len() == letters.len() + 1);
        assert(s.last() == spec_digit_char(d));
        assert(s.drop_last() =~= letters);
        lemma_letters_tier_inverse(t);
        assert(spec_digit_value(spec_digit_char(d)) == Some(d));
        // The full-length all-'S' branch never fires: the last character
        // is a digit, not 'S'.
        assert(s[s.len() - 1] != 'S');
    }
}

} // verus!
