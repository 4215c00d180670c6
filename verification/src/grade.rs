//! Vs aura motifs.
//!
//! The vs-aura picker offers three identifiers per named grade of the
//! grade table, packed consecutively from 1, and two special motifs at
//! fixed identifiers past the graded range. A graded identifier splits
//! into the grade's index in the table and a sub-level from 1 to 3.

use vstd::prelude::*;
use vstd::arithmetic::div_mod::lemma_fundamental_div_mod;

verus! {

/// What a vs-aura motif identifier denotes.
#[derive(PartialEq, Eq, Structural, Clone, Copy, Debug)]
pub enum VsAuraKind {
    /// An entry of the grade table: the grade's index and a sub-level in
    /// 1..=3.
    Graded { grade: u32, sub: u32 },
    /// The anniversary motif.
    Anniversary,
    /// The halloween motif.
    Halloween,
}

/// What a motif identifier denotes against a grade table of
/// `grade_count` entries: grades occupy 1..=3*grade_count, the special
/// motifs sit at 100 and 101, and nothing else is a motif.
pub open spec fn spec_vs_aura_kind(id: u32, grade_count: u32) -> Option<VsAuraKind> {
    if 1 <= id && id <= 3 * grade_count {
        Some(
            VsAuraKind::Graded {
                grade: (((id - 1) as int) / 3) as u32,
                sub: (((id - 1) as int) % 3 + 1) as u32,
            },
        )
    } else if id == 100 {
        Some(VsAuraKind::Anniversary)
    } else if id == 101 {
        Some(VsAuraKind::Halloween)
    } else {
        None
    }
}

/// Resolves a motif identifier against a grade table of `grade_count`
/// entries. A graded motif decomposes uniquely: the identifier is
/// recovered as `3 * grade + sub`.
pub fn vs_aura_kind(id: u32, grade_count: u32) -> (r: Option<VsAuraKind>)
    requires
        grade_count <= 30,
    ensures
        r == spec_vs_aura_kind(id, grade_count),
        match r {
            Some(VsAuraKind::Graded { grade, sub }) => {
                &&& id == 3 * grade + sub
                &&& grade < grade_count
                &&& 1 <= sub <= 3
            },
            _ => true,
        },
{
    if 1 <= id && id <= 3 * grade_count {
        let grade = (id - 1) / 3;
        let sub = (id - 1) % 3 + 1;
        proof {
            lemma_fundamental_div_mod((id - 1) as int, 3);
        }
        Some(VsAuraKind::Graded { grade, sub })
    } else if id == 100 {
        Some(VsAuraKind::Anniversary)
    } else if id == 101 {
        Some(VsAuraKind::Halloween)
    } else {
        None
    }
}

} // verus!
