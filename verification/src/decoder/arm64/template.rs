//! The classification table: which bit patterns belong to which family.

use crate::report::ReportType;
use vstd::prelude::*;

verus! {

/// The instruction families the decoder knows.
#[allow(clippy::upper_case_acronyms)]
#[derive(Clone, Copy, Debug, PartialEq, Eq, Structural)]
pub enum Family {
    ADD,
    SUB,
    STP,
    MOVZ,
    STR,
    STUR,
    ADR,
    ADRP,
}

/// A bit template with the family it selects. A template fixes some
/// positions of a word to 0 or 1 and leaves the others open: `mask` has a
/// one at every fixed position, `bits` holds the fixed values and zeros
/// elsewhere.
#[derive(Clone, Copy, Debug, PartialEq, Eq, Structural)]
pub struct Template {
    pub mask: u32,
    pub bits: u32,
    pub family: Family,
}

/// Whether the bit of `word` at `position` is set; position 0 is the lowest.
pub open spec fn bit(word: u32, position: u32) -> bool {
    (word >> position) & 1 == 1
}

impl Template {
    /// The open positions of a template hold zeros in `bits`.
    pub open spec fn wf(self) -> bool {
        self.bits & !self.mask == 0
    }

    /// A word matches when it agrees with the template at every fixed
    /// position.
    pub open spec fn matches(self, word: u32) -> bool {
        word & self.mask == self.bits
    }

    /// The same, position by position: wherever the template fixes a bit,
    /// the word has that bit.
    pub open spec fn matches_bit_by_bit(self, word: u32) -> bool {
        forall|position: u32|
            position < 32 && bit(self.mask, position) ==> #[trigger] bit(word, position) == bit(
                self.bits,
                position,
            )
    }

    /// Whether `word` matches the template.
    pub fn is_match(&self, word: u32) -> (matched: bool)
        ensures
            matched == self.matches(word),
    {
        word & self.mask == self.bits
    }
}

proof fn lemma_equal_bits_match(word: u32, mask: u32, bits: u32)
    by (bit_vector)
    requires
        bits & !mask == 0,
        (mask >> 0u32) & 1 == 1 ==> ((word >> 0u32) & 1 == 1) == ((bits >> 0u32) & 1 == 1),
        (mask >> 1u32) & 1 == 1 ==> ((word >> 1u32) & 1 == 1) == ((bits >> 1u32) & 1 == 1),
        (mask >> 2u32) & 1 == 1 ==> ((word >> 2u32) & 1 == 1) == ((bits >> 2u32) & 1 == 1),
        (mask >> 3u32) & 1 == 1 ==> ((word >> 3u32) & 1 == 1) == ((bits >> 3u32) & 1 == 1),
        (mask >> 4u32) & 1 == 1 ==> ((word >> 4u32) & 1 == 1) == ((bits >> 4u32) & 1 == 1),
        (mask >> 5u32) & 1 == 1 ==> ((word >> 5u32) & 1 == 1) == ((bits >> 5u32) & 1 == 1),
        (mask >> 6u32) & 1 == 1 ==> ((word >> 6u32) & 1 == 1) == ((bits >> 6u32) & 1 == 1),
        (mask >> 7u32) & 1 == 1 ==> ((word >> 7u32) & 1 == 1) == ((bits >> 7u32) & 1 == 1),
        (mask >> 8u32) & 1 == 1 ==> ((word >> 8u32) & 1 == 1) == ((bits >> 8u32) & 1 == 1),
        (mask >> 9u32) & 1 == 1 ==> ((word >> 9u32) & 1 == 1) == ((bits >> 9u32) & 1 == 1),
        (mask >> 10u32) & 1 == 1 ==> ((word >> 10u32) & 1 == 1) == ((bits >> 10u32) & 1 == 1),
        (mask >> 11u32) & 1 == 1 ==> ((word >> 11u32) & 1 == 1) == ((bits >> 11u32) & 1 == 1),
        (mask >> 12u32) & 1 == 1 ==> ((word >> 12u32) & 1 == 1) == ((bits >> 12u32) & 1 == 1),
        (mask >> 13u32) & 1 == 1 ==> ((word >> 13u32) & 1 == 1) == ((bits >> 13u32) & 1 == 1),
        (mask >> 14u32) & 1 == 1 ==> ((word >> 14u32) & 1 == 1) == ((bits >> 14u32) & 1 == 1),
        (mask >> 15u32) & 1 == 1 ==> ((word >> 15u32) & 1 == 1) == ((bits >> 15u32) & 1 == 1),
        (mask >> 16u32) & 1 == 1 ==> ((word >> 16u32) & 1 == 1) == ((bits >> 16u32) & 1 == 1),
        (mask >> 17u32) & 1 == 1 ==> ((word >> 17u32) & 1 == 1) == ((bits >> 17u32) & 1 == 1),
        (mask >> 18u32) & 1 == 1 ==> ((word >> 18u32) & 1 == 1) == ((bits >> 18u32) & 1 == 1),
        (mask >> 19u32) & 1 == 1 ==> ((word >> 19u32) & 1 == 1) == ((bits >> 19u32) & 1 == 1),
        (mask >> 20u32) & 1 == 1 ==> ((word >> 20u32) & 1 == 1) == ((bits >> 20u32) & 1 == 1),
        (mask >> 21u32) & 1 == 1 ==> ((word >> 21u32) & 1 == 1) == ((bits >> 21u32) & 1 == 1),
        (mask >> 22u32) & 1 == 1 ==> ((word >> 22u32) & 1 == 1) == ((bits >> 22u32) & 1 == 1),
        (mask >> 23u32) & 1 == 1 ==> ((word >> 23u32) & 1 == 1) == ((bits >> 23u32) & 1 == 1),
        (mask >> 24u32) & 1 == 1 ==> ((word >> 24u32) & 1 == 1) == ((bits >> 24u32) & 1 == 1),
        (mask >> 25u32) & 1 == 1 ==> ((word >> 25u32) & 1 == 1) == ((bits >> 25u32) & 1 == 1),
        (mask >> 26u32) & 1 == 1 ==> ((word >> 26u32) & 1 == 1) == ((bits >> 26u32) & 1 == 1),
        (mask >> 27u32) & 1 == 1 ==> ((word >> 27u32) & 1 == 1) == ((bits >> 27u32) & 1 == 1),
        (mask >> 28u32) & 1 == 1 ==> ((word >> 28u32) & 1 == 1) == ((bits >> 28u32) & 1 == 1),
        (mask >> 29u32) & 1 == 1 ==> ((word >> 29u32) & 1 == 1) == ((bits >> 29u32) & 1 == 1),
        (mask >> 30u32) & 1 == 1 ==> ((word >> 30u32) & 1 == 1) == ((bits >> 30u32) & 1 == 1),
        (mask >> 31u32) & 1 == 1 ==> ((word >> 31u32) & 1 == 1) == ((bits >> 31u32) & 1 == 1),
    ensures
        word & mask == bits,
{
}

/// Comparing under the mask is the test of every fixed position.
pub proof fn lemma_match_is_bit_by_bit(template: Template, word: u32)
    requires
        template.wf(),
    ensures
        template.matches(word) <==> template.matches_bit_by_bit(word),
{
    let mask = template.mask;
    let bits = template.bits;
    if template.matches(word) {
        assert forall|position: u32| position < 32 && bit(mask, position) implies #[trigger] bit(
            word,
            position,
        ) == bit(bits, position) by {
            assert(((word >> position) & 1 == 1) == ((bits >> position) & 1 == 1)) by (bit_vector)
                requires
                    word & mask == bits,
                    position < 32,
                    (mask >> position) & 1 == 1,
            ;
        }
    }
    if template.matches_bit_by_bit(word) {
        assert(forall|position: u32|
            position < 32 && bit(mask, position) ==> #[trigger] bit(word, position) == bit(
                bits,
                position,
            ));
        assert(bit(mask, 0) ==> bit(word, 0) == bit(bits, 0));
        assert(bit(mask, 1) ==> bit(word, 1) == bit(bits, 1));
        assert(bit(mask, 2) ==> bit(word, 2) == bit(bits, 2));
        assert(bit(mask, 3) ==> bit(word, 3) == bit(bits, 3));
        assert(bit(mask, 4) ==> bit(word, 4) == bit(bits, 4));
        assert(bit(mask, 5) ==> bit(word, 5) == bit(bits, 5));
        assert(bit(mask, 6) ==> bit(word, 6) == bit(bits, 6));
        assert(bit(mask, 7) ==> bit(word, 7) == bit(bits, 7));
        assert(bit(mask, 8) ==> bit(word, 8) == bit(bits, 8));
        assert(bit(mask, 9) ==> bit(word, 9) == bit(bits, 9));
        assert(bit(mask, 10) ==> bit(word, 10) == bit(bits, 10));
        assert(bit(mask, 11) ==> bit(word, 11) == bit(bits, 11));
        assert(bit(mask, 12) ==> bit(word, 12) == bit(bits, 12));
        assert(bit(mask, 13) ==> bit(word, 13) == bit(bits, 13));
        assert(bit(mask, 14) ==> bit(word, 14) == bit(bits, 14));
        assert(bit(mask, 15) ==> bit(word, 15) == bit(bits, 15));
        assert(bit(mask, 16) ==> bit(word, 16) == bit(bits, 16));
        assert(bit(mask, 17) ==> bit(word, 17) == bit(bits, 17));
        assert(bit(mask, 18) ==> bit(word, 18) == bit(bits, 18));
        assert(bit(mask, 19) ==> bit(word, 19) == bit(bits, 19));
        assert(bit(mask, 20) ==> bit(word, 20) == bit(bits, 20));
        assert(bit(mask, 21) ==> bit(word, 21) == bit(bits, 21));
        assert(bit(mask, 22) ==> bit(word, 22) == bit(bits, 22));
        assert(bit(mask, 23) ==> bit(word, 23) == bit(bits, 23));
        assert(bit(mask, 24) ==> bit(word, 24) == bit(bits, 24));
        assert(bit(mask, 25) ==> bit(word, 25) == bit(bits, 25));
        assert(bit(mask, 26) ==> bit(word, 26) == bit(bits, 26));
        assert(bit(mask, 27) ==> bit(word, 27) == bit(bits, 27));
        assert(bit(mask, 28) ==> bit(word, 28) == bit(bits, 28));
        assert(bit(mask, 29) ==> bit(word, 29) == bit(bits, 29));
        assert(bit(mask, 30) ==> bit(word, 30) == bit(bits, 30));
        assert(bit(mask, 31) ==> bit(word, 31) == bit(bits, 31));
        lemma_equal_bits_match(word, mask, bits);
    }
}

/// The number of templates in the table.
pub const TEMPLATE_COUNT: usize = 14;

/// The table, in the order in which the templates are tried. In the pattern
/// beside each entry the leftmost character is bit 31 and `?` is an open
/// position.
pub open spec fn spec_template(index: int) -> Template
    recommends
        0 <= index < TEMPLATE_COUNT,
{
    if index == 0 {
        // ?0?100010???????????????????????
        Template { mask: 0x5F80_0000, bits: 0x1100_0000, family: Family::ADD }
    } else if index == 1 {
        // ?1?100010???????????????????????
        Template { mask: 0x5F80_0000, bits: 0x5100_0000, family: Family::SUB }
    } else if index == 2 {
        // ?010100010??????????????????????  post-index
        Template { mask: 0x7FC0_0000, bits: 0x2880_0000, family: Family::STP }
    } else if index == 3 {
        // ?010100110??????????????????????  pre-index
        Template { mask: 0x7FC0_0000, bits: 0x2980_0000, family: Family::STP }
    } else if index == 4 {
        // ?010100100??????????????????????  signed offset
        Template { mask: 0x7FC0_0000, bits: 0x2900_0000, family: Family::STP }
    } else if index == 5 {
        // 110100101???????????????????????  64-bit, any shift
        Template { mask: 0xFF80_0000, bits: 0xD280_0000, family: Family::MOVZ }
    } else if index == 6 {
        // 0101001010??????????????????????  32-bit, shift of 0 or 16
        Template { mask: 0xFFC0_0000, bits: 0x5280_0000, family: Family::MOVZ }
    } else if index == 7 {
        // 1?111000000?????????01??????????  immediate, post-index
        Template { mask: 0xBFE0_0C00, bits: 0xB800_0400, family: Family::STR }
    } else if index == 8 {
        // 1?111000000?????????11??????????  immediate, pre-index
        Template { mask: 0xBFE0_0C00, bits: 0xB800_0C00, family: Family::STR }
    } else if index == 9 {
        // 1?11100100??????????????????????  immediate, unsigned offset
        Template { mask: 0xBFC0_0000, bits: 0xB900_0000, family: Family::STR }
    } else if index == 10 {
        // 1?111000001?????????10??????????  register offset
        Template { mask: 0xBFE0_0C00, bits: 0xB820_0800, family: Family::STR }
    } else if index == 11 {
        // 1?111000000?????????00??????????
        Template { mask: 0xBFE0_0C00, bits: 0xB800_0000, family: Family::STUR }
    } else if index == 12 {
        // 0??10000????????????????????????
        Template { mask: 0x9F00_0000, bits: 0x1000_0000, family: Family::ADR }
    } else {
        // 1??10000????????????????????????
        Template { mask: 0x9F00_0000, bits: 0x9000_0000, family: Family::ADRP }
    }
}

/// The entry of the table at `index`.
pub fn template(index: usize) -> (entry: Template)
    requires
        index < TEMPLATE_COUNT,
    ensures
        entry == spec_template(index as int),
{
    match index {
        0 => Template { mask: 0x5F80_0000, bits: 0x1100_0000, family: Family::ADD },
        1 => Template { mask: 0x5F80_0000, bits: 0x5100_0000, family: Family::SUB },
        2 => Template { mask: 0x7FC0_0000, bits: 0x2880_0000, family: Family::STP },
        3 => Template { mask: 0x7FC0_0000, bits: 0x2980_0000, family: Family::STP },
        4 => Template { mask: 0x7FC0_0000, bits: 0x2900_0000, family: Family::STP },
        5 => Template { mask: 0xFF80_0000, bits: 0xD280_0000, family: Family::MOVZ },
        6 => Template { mask: 0xFFC0_0000, bits: 0x5280_0000, family: Family::MOVZ },
        7 => Template { mask: 0xBFE0_0C00, bits: 0xB800_0400, family: Family::STR },
        8 => Template { mask: 0xBFE0_0C00, bits: 0xB800_0C00, family: Family::STR },
        9 => Template { mask: 0xBFC0_0000, bits: 0xB900_0000, family: Family::STR },
        10 => Template { mask: 0xBFE0_0C00, bits: 0xB820_0800, family: Family::STR },
        11 => Template { mask: 0xBFE0_0C00, bits: 0xB800_0000, family: Family::STUR },
        12 => Template { mask: 0x9F00_0000, bits: 0x1000_0000, family: Family::ADR },
        _ => Template { mask: 0x9F00_0000, bits: 0x9000_0000, family: Family::ADRP },
    }
}

proof fn lemma_table_constants()
    by (bit_vector)
    ensures
        0x1100_0000u32 & !0x5F80_0000u32 == 0,
        0x5100_0000u32 & !0x5F80_0000u32 == 0,
        0x2880_0000u32 & !0x7FC0_0000u32 == 0,
        0x2980_0000u32 & !0x7FC0_0000u32 == 0,
        0x2900_0000u32 & !0x7FC0_0000u32 == 0,
        0xD280_0000u32 & !0xFF80_0000u32 == 0,
        0x5280_0000u32 & !0xFFC0_0000u32 == 0,
        0xB800_0400u32 & !0xBFE0_0C00u32 == 0,
        0xB800_0C00u32 & !0xBFE0_0C00u32 == 0,
        0xB900_0000u32 & !0xBFC0_0000u32 == 0,
        0xB820_0800u32 & !0xBFE0_0C00u32 == 0,
        0xB800_0000u32 & !0xBFE0_0C00u32 == 0,
        0x1000_0000u32 & !0x9F00_0000u32 == 0,
        0x9000_0000u32 & !0x9F00_0000u32 == 0,
{
}

/// Every template of the table is well formed, so matching against it is
/// the test of its fixed positions.
pub proof fn lemma_table_is_well_formed(index: int, word: u32)
    requires
        0 <= index < TEMPLATE_COUNT,
    ensures
        spec_template(index).wf(),
        spec_template(index).matches(word) <==> spec_template(index).matches_bit_by_bit(word),
{
    lemma_table_constants();
    lemma_match_is_bit_by_bit(spec_template(index), word);
}

/// The index of the first template from `from` on that `word` matches.
pub open spec fn first_match(word: u32, from: int) -> Option<int>
    decreases TEMPLATE_COUNT - from,
{
    if from < 0 || from >= TEMPLATE_COUNT {
        None
    } else if spec_template(from).matches(word) {
        Some(from)
    } else {
        first_match(word, from + 1)
    }
}

/// The family of the first template in the table that `word` matches, if
/// any does.
pub open spec fn spec_classify(word: u32) -> Option<Family> {
    match first_match(word, 0) {
        Some(index) => Some(spec_template(index).family),
        None => None,
    }
}

/// What `first_match` finds is a matching template with none matching
/// before it, and it finds nothing only if no template matches.
pub proof fn lemma_first_match(word: u32, from: int)
    requires
        0 <= from <= TEMPLATE_COUNT,
    ensures
        match first_match(word, from) {
            Some(index) => {
                &&& from <= index < TEMPLATE_COUNT
                &&& spec_template(index).matches(word)
                &&& forall|j: int| from <= j < index ==> !spec_template(j).matches(word)
            },
            None => forall|j: int| from <= j < TEMPLATE_COUNT ==> !spec_template(j).matches(word),
        },
    decreases TEMPLATE_COUNT - from,
{
    if from < TEMPLATE_COUNT && !spec_template(from).matches(word) {
        lemma_first_match(word, from + 1);
    }
}

/// The number of templates that `word` matches.
pub open spec fn match_count(word: u32) -> int {
    (if spec_template(0).matches(word) { 1int } else { 0int })
    + (if spec_template(1).matches(word) { 1int } else { 0int })
    + (if spec_template(2).matches(word) { 1int } else { 0int })
    + (if spec_template(3).matches(word) { 1int } else { 0int })
    + (if spec_template(4).matches(word) { 1int } else { 0int })
    + (if spec_template(5).matches(word) { 1int } else { 0int })
    + (if spec_template(6).matches(word) { 1int } else { 0int })
    + (if spec_template(7).matches(word) { 1int } else { 0int })
    + (if spec_template(8).matches(word) { 1int } else { 0int })
    + (if spec_template(9).matches(word) { 1int } else { 0int })
    + (if spec_template(10).matches(word) { 1int } else { 0int })
    + (if spec_template(11).matches(word) { 1int } else { 0int })
    + (if spec_template(12).matches(word) { 1int } else { 0int })
    + (if spec_template(13).matches(word) { 1int } else { 0int })
}

proof fn lemma_patterns_exclude_each_other(word: u32)
    by (bit_vector)
    ensures
        (if word & 0x5F80_0000 == 0x1100_0000 { 1int } else { 0int })
        + (if word & 0x5F80_0000 == 0x5100_0000 { 1int } else { 0int })
        + (if word & 0x7FC0_0000 == 0x2880_0000 { 1int } else { 0int })
        + (if word & 0x7FC0_0000 == 0x2980_0000 { 1int } else { 0int })
        + (if word & 0x7FC0_0000 == 0x2900_0000 { 1int } else { 0int })
        + (if word & 0xFF80_0000 == 0xD280_0000 { 1int } else { 0int })
        + (if word & 0xFFC0_0000 == 0x5280_0000 { 1int } else { 0int })
        + (if word & 0xBFE0_0C00 == 0xB800_0400 { 1int } else { 0int })
        + (if word & 0xBFE0_0C00 == 0xB800_0C00 { 1int } else { 0int })
        + (if word & 0xBFC0_0000 == 0xB900_0000 { 1int } else { 0int })
        + (if word & 0xBFE0_0C00 == 0xB820_0800 { 1int } else { 0int })
        + (if word & 0xBFE0_0C00 == 0xB800_0000 { 1int } else { 0int })
        + (if word & 0x9F00_0000 == 0x1000_0000 { 1int } else { 0int })
        + (if word & 0x9F00_0000 == 0x9000_0000 { 1int } else { 0int }) <= 1,
{
}

/// No word matches two templates of the table: whatever the order in which
/// they are tried, the same template decides.
pub proof fn lemma_at_most_one_match(word: u32, first: int, second: int)
    requires
        0 <= first < TEMPLATE_COUNT,
        0 <= second < TEMPLATE_COUNT,
        spec_template(first).matches(word),
        spec_template(second).matches(word),
    ensures
        first == second,
        match_count(word) == 1,
        first_match(word, 0) == Some(first),
{
    lemma_patterns_exclude_each_other(word);
    lemma_first_match(word, 0);
}

/// Classification is decided by matching alone: a word is classified into a
/// family exactly if it matches a template of that family.
pub proof fn lemma_classify_by_match(word: u32, index: int)
    requires
        0 <= index < TEMPLATE_COUNT,
    ensures
        spec_template(index).matches(word) ==> spec_classify(word) == Some(
            spec_template(index).family,
        ),
        spec_classify(word) is None <==> match_count(word) == 0,
        match_count(word) <= 1,
{
    lemma_patterns_exclude_each_other(word);
    lemma_first_match(word, 0);
}

/// Classifies `word`: the templates are tried in table order and the first
/// that matches decides.
pub fn classify(word: u32) -> (family: Option<Family>)
    ensures
        family == spec_classify(word),
{
    let mut index: usize = 0;
    while index < TEMPLATE_COUNT
        invariant
            index <= TEMPLATE_COUNT,
            first_match(word, 0) == first_match(word, index as int),
        decreases TEMPLATE_COUNT - index,
    {
        let entry = template(index);
        if entry.is_match(word) {
            return Some(entry.family);
        }
        index += 1;
    }
    None
}

/// The top-level encoding group of a word: bits 25 to 28.
pub open spec fn spec_group(word: u32) -> u32 {
    (word >> 25) & 0xF
}

/// Why a word that matches no template is not decoded, judged by its group:
/// group `0000` is reserved, groups `0001` and `0011` are unallocated, and
/// every other group holds instructions, so the decoder lacks the family.
pub open spec fn spec_group_report(word: u32) -> ReportType {
    let group = spec_group(word);
    if group == 0 {
        ReportType::ReservedOpcode
    } else if group == 1 || group == 3 {
        ReportType::UnallocatedOpcode
    } else {
        ReportType::UnmatchedOpcode
    }
}

/// The groups in which the decoder knows at least one family: data
/// processing with an immediate (`100x`) and loads and stores (`x1x0`).
pub open spec fn group_has_families(word: u32) -> bool {
    spec_group(word) & 0xE == 0x8 || spec_group(word) & 0x5 == 0x4
}

proof fn lemma_patterns_lie_in_groups(word: u32)
    by (bit_vector)
    ensures
        (word & 0x5F80_0000 == 0x1100_0000 || word & 0x5F80_0000 == 0x5100_0000 || word
            & 0xFF80_0000 == 0xD280_0000 || word & 0xFFC0_0000 == 0x5280_0000 || word & 0x9F00_0000
            == 0x1000_0000 || word & 0x9F00_0000 == 0x9000_0000) ==> ((word >> 25) & 0xF) & 0xE
            == 0x8,
        (word & 0x7FC0_0000 == 0x2880_0000 || word & 0x7FC0_0000 == 0x2980_0000 || word
            & 0x7FC0_0000 == 0x2900_0000 || word & 0xBFE0_0C00 == 0xB800_0400 || word & 0xBFE0_0C00
            == 0xB800_0C00 || word & 0xBFC0_0000 == 0xB900_0000 || word & 0xBFE0_0C00 == 0xB820_0800
            || word & 0xBFE0_0C00 == 0xB800_0000) ==> ((word >> 25) & 0xF) & 0x5 == 0x4,
        ((word >> 25) & 0xF) & 0xE == 0x8 || ((word >> 25) & 0xF) & 0x5 == 0x4 ==> (word >> 25)
            & 0xF != 0 && (word >> 25) & 0xF != 1 && (word >> 25) & 0xF != 3,
{
}

/// Every template lies in a group that holds instructions, and a word of
/// such a group that matches no template is reported as unmatched, never as
/// reserved or unallocated.
pub proof fn lemma_group_of_unmatched(word: u32)
    ensures
        spec_classify(word) is Some ==> group_has_families(word),
        group_has_families(word) ==> spec_group_report(word) == ReportType::UnmatchedOpcode,
{
    lemma_patterns_lie_in_groups(word);
    lemma_first_match(word, 0);
}

/// The kind of report for a word that matches no template.
pub fn group_report(word: u32) -> (kind: ReportType)
    ensures
        kind == spec_group_report(word),
{
    let group = (word >> 25) & 0xF;
    if group == 0 {
        ReportType::ReservedOpcode
    } else if group == 1 || group == 3 {
        ReportType::UnallocatedOpcode
    } else {
        ReportType::UnmatchedOpcode
    }
}

} // verus!
