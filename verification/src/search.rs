//! The words of a search.

use vstd::prelude::*;
use crate::text::{chars_of, lowercase, same_text, to_lowercase};

verus! {

/// Whether Unicode counts `c` as white space: the characters from tab to
/// carriage return, the space, the next-line character, the no-break space,
/// the ogham space mark, the spaces from en quad to hair space, the line
/// and the paragraph separator, the narrow no-break space, the medium
/// mathematical space and the ideographic space.
pub open spec fn is_whitespace(c: char) -> bool {
    let code = c as u32;
    ||| 0x0009 <= code <= 0x000D
    ||| code == 0x0020
    ||| code == 0x0085
    ||| code == 0x00A0
    ||| code == 0x1680
    ||| 0x2000 <= code <= 0x200A
    ||| code == 0x2028
    ||| code == 0x2029
    ||| code == 0x202F
    ||| code == 0x205F
    ||| code == 0x3000
}

/// `char::is_whitespace`: whether `c` has the Unicode property of white
/// space. The contract lists the characters that have it.
#[verifier::external_body]
fn char_is_whitespace(c: char) -> (white: bool)
    ensures
        white == is_whitespace(c),
{
    c.is_whitespace()
}

/// For each character of `s`, whether it is white space.
pub open spec fn blanks(s: Seq<char>) -> Seq<bool> {
    Seq::new(s.len(), |i: int| is_whitespace(s[i]))
}

/// Where the words stand in a text of which `blank` says, character by
/// character, whether it is white space: the longest runs of characters
/// that are not, each from its first place up to, and without, the place
/// behind its last, in the order in which they stand.
pub open spec fn word_runs(blank: Seq<bool>) -> Seq<(int, int)>
    decreases blank.len(),
{
    if blank.len() == 0 {
        Seq::empty()
    } else {
        let before = word_runs(blank.drop_last());
        if blank.last() {
            before
        } else if blank.len() >= 2 && !blank[blank.len() - 2] {
            before.drop_last().push((before.last().0, blank.len() as int))
        } else {
            before.push((blank.len() - 1, blank.len() as int))
        }
    }
}

/// The words of `s`: its longest runs of characters that are not white
/// space, in the order in which they stand.
pub open spec fn words(s: Seq<char>) -> Seq<Seq<char>> {
    Seq::new(
        word_runs(blanks(s)).len(),
        |k: int| s.subrange(word_runs(blanks(s))[k].0, word_runs(blanks(s))[k].1),
    )
}

/// Whether `ranges` are the runs `runs`.
pub open spec fn same_runs(ranges: Seq<(usize, usize)>, runs: Seq<(int, int)>) -> bool {
    &&& ranges.len() == runs.len()
    &&& forall|k: int|
        0 <= k < ranges.len() ==> (#[trigger] ranges[k]).0 == runs[k].0 && ranges[k].1 == runs[k].1
}

/// Where the words stand in a text of which `blank` says, character by
/// character, whether it is white space.
pub fn word_ranges(blank: &Vec<bool>) -> (ranges: Vec<(usize, usize)>)
    ensures
        same_runs(ranges@, word_runs(blank@)),
        forall|k: int|
            0 <= k < ranges@.len() ==> (#[trigger] ranges@[k]).0 < ranges@[k].1 <= blank@.len(),
{
    let mut ranges: Vec<(usize, usize)> = Vec::new();
    let mut start: Option<usize> = None;
    let mut i: usize = 0;
    proof {
        assert(blank@.take(0) =~= Seq::<bool>::empty());
    }
    while i < blank.len()
        invariant
            i <= blank.len(),
            forall|k: int|
                0 <= k < ranges@.len() ==> (#[trigger] ranges@[k]).0 < ranges@[k].1 <= i,
            start is None ==> {
                &&& i == 0 || blank@[i - 1]
                &&& same_runs(ranges@, word_runs(blank@.take(i as int)))
            },
            start is Some ==> {
                &&& start->Some_0 < i
                &&& !blank@[i - 1]
                &&& word_runs(blank@.take(i as int)).len() == ranges@.len() + 1
                &&& word_runs(blank@.take(i as int)).last() == (start->Some_0 as int, i as int)
                &&& same_runs(ranges@, word_runs(blank@.take(i as int)).drop_last())
            },
        decreases blank.len() - i,
    {
        let ghost seen = blank@.take(i as int);
        let ghost next = blank@.take(i + 1);
        proof {
            assert(next.drop_last() =~= seen);
            assert(next.last() == blank@[i as int]);
            if i > 0 {
                assert(next[next.len() - 2] == blank@[i - 1]);
            }
        }
        if blank[i] {
            match start {
                Some(from) => {
                    ranges.push((from, i));
                    start = None;
                    proof {
                        assert(word_runs(seen) =~= word_runs(seen).drop_last().push(
                            word_runs(seen).last(),
                        ));
                    }
                },
                None => {},
            }
        } else {
            match start {
                Some(from) => {
                    proof {
                        assert(word_runs(next).drop_last() =~= word_runs(seen).drop_last());
                    }
                },
                None => {
                    proof {
                        assert(word_runs(next).drop_last() =~= word_runs(seen));
                    }
                    start = Some(i);
                },
            }
        }
        i += 1;
    }
    proof {
        blank@.lemma_take_len();
    }
    match start {
        Some(from) => {
            ranges.push((from, blank.len()));
            proof {
                assert(word_runs(blank@) =~= word_runs(blank@).drop_last().push(
                    word_runs(blank@).last(),
                ));
            }
        },
        None => {},
    }
    ranges
}

/// Whether `keywords` are the words of `s`, each in lower case.
pub open spec fn are_keywords_of(keywords: Seq<String>, s: Seq<char>) -> bool {
    &&& keywords.len() == words(s).len()
    &&& forall|k: int| 0 <= k < keywords.len() ==> (#[trigger] keywords[k])@ == lowercase(words(s)[k])
}

/// The words of `s`, each in lower case.
pub fn get_keywords_for_string(s: &str) -> (keywords: Vec<String>)
    ensures
        are_keywords_of(keywords@, s@),
{
    let chars = chars_of(s);
    let mut blank: Vec<bool> = Vec::new();
    let mut i: usize = 0;
    while i < chars.len()
        invariant
            i <= chars.len(),
            chars@ == s@,
            blank@.len() == i,
            forall|j: int| 0 <= j < i ==> #[trigger] blank@[j] == is_whitespace(s@[j]),
        decreases chars.len() - i,
    {
        blank.push(char_is_whitespace(chars[i]));
        i += 1;
    }
    assert(blank@ =~= blanks(s@));
    let ranges = word_ranges(&blank);
    let mut keywords: Vec<String> = Vec::new();
    let mut k: usize = 0;
    while k < ranges.len()
        invariant
            k <= ranges.len(),
            blank@ == blanks(s@),
            same_runs(ranges@, word_runs(blank@)),
            forall|j: int|
                0 <= j < ranges@.len() ==> (#[trigger] ranges@[j]).0 < ranges@[j].1 <= blank@.len(),
            keywords@.len() == k,
            forall|j: int| 0 <= j < k ==> (#[trigger] keywords@[j])@ == lowercase(words(s@)[j]),
        decreases ranges.len() - k,
    {
        let (from, to) = ranges[k];
        let word = to_lowercase(s.substring_char(from, to));
        keywords.push(word);
        k += 1;
    }
    keywords
}

/// Whether `word` is one of the words that say little about an item: the
/// parts of warframes, the grades of mods and relics, and the like.
pub open spec fn is_common_word(word: Seq<char>) -> bool {
    ||| word == "neuroptics"@
    ||| word == "systems"@
    ||| word == "chassis"@
    ||| word == "blueprint"@
    ||| word == "set"@
    ||| word == "primed"@
    ||| word == "galvanized"@
    ||| word == "lith"@
    ||| word == "meso"@
    ||| word == "neo"@
    ||| word == "axi"@
    ||| word == "requiem"@
    ||| word == "arcane"@
    ||| word == "prime"@
}

/// Whether `word` is one of the words that say little about an item.
pub fn is_keyword(word: &str) -> (common: bool)
    ensures
        common == is_common_word(word@),
{
    same_text(word, "neuroptics") || same_text(word, "systems") || same_text(word, "chassis")
        || same_text(word, "blueprint") || same_text(word, "set") || same_text(word, "primed")
        || same_text(word, "galvanized") || same_text(word, "lith") || same_text(word, "meso")
        || same_text(word, "neo") || same_text(word, "axi") || same_text(word, "requiem")
        || same_text(word, "arcane") || same_text(word, "prime")
}

} // verus!
