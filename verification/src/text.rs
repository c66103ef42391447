//! Operations on text, seen as a sequence of characters.

use vstd::prelude::*;
use vstd::string::StrSliceExecFns;

verus! {

/// The characters with the Unicode `White_Space` property.
pub open spec fn is_space(c: char) -> bool {
    ||| 0x09 <= c as u32 <= 0x0d
    ||| c as u32 == 0x20
    ||| c as u32 == 0x85
    ||| c as u32 == 0xa0
    ||| c as u32 == 0x1680
    ||| 0x2000 <= c as u32 <= 0x200a
    ||| c as u32 == 0x2028
    ||| c as u32 == 0x2029
    ||| c as u32 == 0x202f
    ||| c as u32 == 0x205f
    ||| c as u32 == 0x3000
}

/// `s` without the white space it starts with.
pub open spec fn without_leading_space(s: Seq<char>) -> Seq<char>
    decreases s.len(),
{
    if s.len() > 0 && is_space(s[0]) {
        without_leading_space(s.drop_first())
    } else {
        s
    }
}

/// `s` without the white space it ends with.
pub open spec fn without_trailing_space(s: Seq<char>) -> Seq<char>
    decreases s.len(),
{
    if s.len() > 0 && is_space(s.last()) {
        without_trailing_space(s.drop_last())
    } else {
        s
    }
}

/// `s` without white space at either end.
pub open spec fn trimmed(s: Seq<char>) -> Seq<char> {
    without_trailing_space(without_leading_space(s))
}

/// `s` without the slashes it ends with.
pub open spec fn without_trailing_slashes(s: Seq<char>) -> Seq<char>
    decreases s.len(),
{
    if s.len() > 0 && s.last() == '/' {
        without_trailing_slashes(s.drop_last())
    } else {
        s
    }
}

/// Whether `c` has the Unicode `White_Space` property.
pub fn is_whitespace(c: char) -> (res: bool)
    ensures
        res == is_space(c),
{
    let code: u32 = c as u32;
    (0x09 <= code && code <= 0x0d) || code == 0x20 || code == 0x85 || code == 0xa0 || code
        == 0x1680 || (0x2000 <= code && code <= 0x200a) || code == 0x2028 || code == 0x2029
        || code == 0x202f || code == 0x205f || code == 0x3000
}

/// The part of `s` between its leading and its trailing white space.
pub fn trim<'a>(s: &'a str) -> (res: &'a str)
    ensures
        res@ == trimmed(s@),
{
    let len: usize = s.unicode_len();
    let mut start: usize = 0;
    assert(s@.skip(0) =~= s@);
    while start < len && is_whitespace(s.get_char(start))
        invariant
            len == s@.len(),
            start <= len,
            without_leading_space(s@) == without_leading_space(s@.skip(start as int)),
        decreases len - start,
    {
        assert(s@.skip(start as int).drop_first() =~= s@.skip(start + 1));
        start = start + 1;
    }
    let ghost body = s@.skip(start as int);
    assert(without_leading_space(s@) == body);
    let mut end: usize = len;
    assert(body =~= s@.subrange(start as int, end as int));
    while end > start && is_whitespace(s.get_char(end - 1))
        invariant
            start <= end <= len == s@.len(),
            without_trailing_space(body) == without_trailing_space(
                s@.subrange(start as int, end as int),
            ),
        decreases end - start,
    {
        assert(s@.subrange(start as int, end as int).drop_last() =~= s@.subrange(
            start as int,
            end - 1,
        ));
        end = end - 1;
    }
    s.substring_char(start, end)
}

/// The part of `s` before its trailing slashes.
pub fn trim_end_slashes<'a>(s: &'a str) -> (res: &'a str)
    ensures
        res@ == without_trailing_slashes(s@),
{
    let mut end: usize = s.unicode_len();
    assert(s@.take(end as int) =~= s@);
    while end > 0 && s.get_char(end - 1) == '/'
        invariant
            end <= s@.len(),
            without_trailing_slashes(s@) == without_trailing_slashes(s@.take(end as int)),
        decreases end,
    {
        assert(s@.take(end as int).drop_last() =~= s@.take(end - 1));
        end = end - 1;
    }
    assert(s@.subrange(0, end as int) =~= s@.take(end as int));
    s.substring_char(0, end)
}

/// Whether `s` begins with `prefix`.
pub fn starts_with(s: &str, prefix: &str) -> (res: bool)
    ensures
        res == prefix@.is_prefix_of(s@),
{
    let len: usize = prefix.unicode_len();
    if s.unicode_len() < len {
        return false;
    }
    let mut i: usize = 0;
    while i < len
        invariant
            len == prefix@.len() <= s@.len(),
            i <= len,
            forall|j: int| 0 <= j < i ==> prefix@[j] == s@[j],
        decreases len - i,
    {
        if s.get_char(i) != prefix.get_char(i) {
            return false;
        }
        i = i + 1;
    }
    true
}

/// What follows `prefix` in `s`.
pub fn after_prefix<'a>(s: &'a str, prefix: &str) -> (res: &'a str)
    requires
        prefix@.is_prefix_of(s@),
    ensures
        s@ == prefix@ + res@,
{
    let rest = s.substring_char(prefix.unicode_len(), s.unicode_len());
    assert(s@ =~= prefix@ + rest@);
    rest
}

/// Whether `s` ends with `c`.
pub fn ends_with_char(s: &str, c: char) -> (res: bool)
    ensures
        res == (s@.len() > 0 && s@.last() == c),
{
    let len: usize = s.unicode_len();
    len > 0 && s.get_char(len - 1) == c
}

/// Whether `a` and `b` are the same text.
pub fn same(a: &str, b: &str) -> (res: bool)
    ensures
        res == (a@ == b@),
{
    if a.unicode_len() == b.unicode_len() {
        assert(b@.is_prefix_of(a@) ==> a@ =~= b@);
        starts_with(a, b)
    } else {
        false
    }
}

/// Trimming leaves no white space at either end, and trimming twice is trimming once.
pub proof fn law_trimmed(s: Seq<char>)
    ensures
        trimmed(s).len() > 0 ==> !is_space(trimmed(s)[0]) && !is_space(trimmed(s).last()),
        trimmed(trimmed(s)) == trimmed(s),
{
    lemma_without_leading_space(s);
    lemma_without_trailing_space(without_leading_space(s));
}

proof fn lemma_without_leading_space(s: Seq<char>)
    ensures
        without_leading_space(s).len() > 0 ==> !is_space(without_leading_space(s)[0]),
    decreases s.len(),
{
    if s.len() > 0 && is_space(s[0]) {
        lemma_without_leading_space(s.drop_first());
    }
}

proof fn lemma_without_trailing_space(s: Seq<char>)
    ensures
        without_trailing_space(s).len() > 0 ==> !is_space(without_trailing_space(s).last()),
        without_trailing_space(s).is_prefix_of(s),
    decreases s.len(),
{
    if s.len() > 0 && is_space(s.last()) {
        lemma_without_trailing_space(s.drop_last());
    }
}

/// What is left without trailing slashes does not end with one, and is the whole text up to
/// the slashes taken away.
pub proof fn law_without_trailing_slashes(s: Seq<char>)
    ensures
        without_trailing_slashes(s).len() > 0 ==> without_trailing_slashes(s).last() != '/',
        without_trailing_slashes(s).is_prefix_of(s),
        forall|i: int|
            without_trailing_slashes(s).len() <= i < s.len() ==> s[i] == '/',
        without_trailing_slashes(without_trailing_slashes(s)) == without_trailing_slashes(s),
    decreases s.len(),
{
    if s.len() > 0 && s.last() == '/' {
        law_without_trailing_slashes(s.drop_last());
        let kept = without_trailing_slashes(s.drop_last());
        assert forall|i: int| kept.len() <= i < s.len() implies s[i] == '/' by {
            if i < s.len() - 1 {
                assert(s.drop_last()[i] == '/');
            }
        }
    }
}

/// All characters are white space.
pub open spec fn all_space(s: Seq<char>) -> bool {
    forall|i: int| 0 <= i < s.len() ==> is_space(#[trigger] s[i])
}

/// All characters are slashes.
pub open spec fn all_slashes(s: Seq<char>) -> bool {
    forall|i: int| 0 <= i < s.len() ==> (#[trigger] s[i]) == '/'
}

/// The text does not end with white space.
pub open spec fn ends_without_space(s: Seq<char>) -> bool {
    s.len() > 0 ==> !is_space(s.last())
}

proof fn lemma_leading_space_goes(before: Seq<char>, s: Seq<char>)
    requires
        all_space(before),
    ensures
        without_leading_space(before + s) == without_leading_space(s),
    decreases before.len(),
{
    if before.len() > 0 {
        assert((before + s)[0] == before[0]);
        assert((before + s).drop_first() =~= before.drop_first() + s);
        lemma_leading_space_goes(before.drop_first(), s);
    } else {
        assert(before + s =~= s);
    }
}

proof fn lemma_trailing_space_goes(s: Seq<char>, after: Seq<char>)
    requires
        all_space(after),
    ensures
        without_trailing_space(s + after) == without_trailing_space(s),
    decreases after.len(),
{
    if after.len() > 0 {
        assert((s + after).last() == after.last());
        assert((s + after).drop_last() =~= s + after.drop_last());
        lemma_trailing_space_goes(s, after.drop_last());
    } else {
        assert(s + after =~= s);
    }
}

/// White space is taken from the front of `s` alone, unless nothing else is in `s`.
proof fn lemma_leading_space_of_sum(s: Seq<char>, rest: Seq<char>)
    ensures
        without_leading_space(s + rest) == if all_space(s) {
            without_leading_space(rest)
        } else {
            without_leading_space(s) + rest
        },
        all_space(s) ==> without_leading_space(s).len() == 0,
    decreases s.len(),
{
    if s.len() == 0 {
        assert(s + rest =~= rest);
    } else if is_space(s[0]) {
        assert((s + rest).drop_first() =~= s.drop_first() + rest);
        lemma_leading_space_of_sum(s.drop_first(), rest);
        assert(all_space(s) <==> all_space(s.drop_first())) by {
            if all_space(s.drop_first()) {
                assert forall|i: int| 0 <= i < s.len() implies is_space(#[trigger] s[i]) by {
                    if i > 0 {
                        assert(is_space(s.drop_first()[i - 1]));
                    }
                }
            }
        }
    }
}

/// White space at either end does not change what trimming leaves.
pub proof fn law_trimmed_ignores_space(before: Seq<char>, s: Seq<char>, after: Seq<char>)
    requires
        all_space(before),
        all_space(after),
    ensures
        trimmed(before + s + after) == trimmed(s),
{
    assert(before + s + after =~= before + (s + after));
    lemma_leading_space_goes(before, s + after);
    lemma_leading_space_of_sum(s, after);
    if all_space(s) {
        lemma_leading_space_of_sum(after, seq![]);
        assert(without_leading_space(s) =~= without_leading_space(after)) by {
            assert(after + seq![] =~= after);
        }
    } else {
        lemma_trailing_space_goes(without_leading_space(s), after);
    }
}

/// Slashes at the end of a text that does not end with white space stay where they are when it
/// is trimmed.
pub proof fn law_trimmed_keeps_slashes(s: Seq<char>, slashes: Seq<char>)
    requires
        ends_without_space(s),
        all_slashes(slashes),
    ensures
        trimmed(s + slashes) == trimmed(s) + slashes,
{
    lemma_leading_space_of_sum(s, slashes);
    if s.len() == 0 {
        assert(s + slashes =~= slashes);
        assert(trimmed(s) + slashes =~= slashes);
        assert(trimmed(slashes) == slashes);
    } else if slashes.len() == 0 {
        assert(s + slashes =~= s);
        assert(trimmed(s) + slashes =~= trimmed(s));
    } else {
        lemma_last_stays(s);
        assert((without_leading_space(s) + slashes).last() == '/');
    }
}

proof fn lemma_last_stays(s: Seq<char>)
    requires
        s.len() > 0,
        !is_space(s.last()),
    ensures
        !all_space(s),
        without_leading_space(s).len() > 0,
        without_leading_space(s).last() == s.last(),
    decreases s.len(),
{
    assert(!is_space(s[s.len() - 1]));
    if is_space(s[0]) {
        lemma_last_stays(s.drop_first());
    }
}

/// Slashes at the end do not change what is left without trailing slashes.
pub proof fn law_trailing_slashes_do_not_count(s: Seq<char>, slashes: Seq<char>)
    requires
        all_slashes(slashes),
    ensures
        without_trailing_slashes(s + slashes) == without_trailing_slashes(s),
    decreases slashes.len(),
{
    if slashes.len() > 0 {
        assert((s + slashes).last() == slashes.last());
        assert((s + slashes).drop_last() =~= s + slashes.drop_last());
        law_trailing_slashes_do_not_count(s, slashes.drop_last());
    } else {
        assert(s + slashes =~= s);
    }
}

/// `s` begins with `before`, ends with `after`, and has exactly `middle` between the two.
pub open spec fn is_wrapped(
    s: Seq<char>,
    before: Seq<char>,
    middle: Seq<char>,
    after: Seq<char>,
) -> bool {
    &&& s.len() == before.len() + middle.len() + after.len()
    &&& s.take(before.len() as int) == before
    &&& s.subrange(before.len() as int, (before.len() + middle.len()) as int) == middle
    &&& s.skip((before.len() + middle.len()) as int) == after
}

/// What is wrapped can be read back: the same wrapping of two texts is the same only for the
/// same text.
pub proof fn law_wrapped_reads_back(
    s: Seq<char>,
    before: Seq<char>,
    middle: Seq<char>,
    other: Seq<char>,
    after: Seq<char>,
)
    requires
        is_wrapped(s, before, middle, after),
        is_wrapped(s, before, other, after),
    ensures
        middle == other,
{
}

pub(crate) proof fn lemma_wrapped(before: Seq<char>, middle: Seq<char>, after: Seq<char>)
    ensures
        is_wrapped(before + middle + after, before, middle, after),
{
    let s = before + middle + after;
    assert(s.take(before.len() as int) =~= before);
    assert(s.subrange(before.len() as int, (before.len() + middle.len()) as int) =~= middle);
    assert(s.skip((before.len() + middle.len()) as int) =~= after);
}

/// The part of `s` from `i` up to `j` is all of it but white space before and after.
pub open spec fn is_core(s: Seq<char>, i: int, j: int) -> bool {
    &&& 0 <= i <= j <= s.len()
    &&& all_space(s.take(i))
    &&& all_space(s.skip(j))
    &&& i < j ==> !is_space(s[i]) && !is_space(s[j - 1])
}

proof fn lemma_leading_count(s: Seq<char>) -> (i: int)
    ensures
        0 <= i <= s.len(),
        all_space(s.take(i)),
        without_leading_space(s) == s.skip(i),
        i < s.len() ==> !is_space(s[i]),
    decreases s.len(),
{
    if s.len() > 0 && is_space(s[0]) {
        let k = lemma_leading_count(s.drop_first());
        assert(s.drop_first().skip(k) =~= s.skip(k + 1));
        assert forall|n: int| 0 <= n < k + 1 implies is_space(#[trigger] s.take(k + 1)[n]) by {
            if n > 0 {
                assert(is_space(s.drop_first().take(k)[n - 1]));
            }
        }
        if k + 1 < s.len() {
            assert(s.drop_first()[k] == s[k + 1]);
        }
        k + 1
    } else {
        assert(s.skip(0) =~= s);
        0
    }
}

proof fn lemma_trailing_count(s: Seq<char>) -> (j: int)
    ensures
        0 <= j <= s.len(),
        all_space(s.skip(j)),
        without_trailing_space(s) == s.take(j),
        j > 0 ==> !is_space(s[j - 1]),
    decreases s.len(),
{
    if s.len() > 0 && is_space(s.last()) {
        let j = lemma_trailing_count(s.drop_last());
        assert(s.drop_last().take(j) =~= s.take(j));
        assert forall|n: int| 0 <= n < s.len() - j implies is_space(#[trigger] s.skip(j)[n]) by {
            if n < s.len() - j - 1 {
                assert(is_space(s.drop_last().skip(j)[n]));
            }
        }
        j
    } else {
        assert(s.take(s.len() as int) =~= s);
        s.len() as int
    }
}

/// Trimming leaves all of a text but the white space before and after it.
pub proof fn law_trimmed_is_the_core(s: Seq<char>)
    ensures
        exists|i: int, j: int| #[trigger] is_core(s, i, j) && trimmed(s) == s.subrange(i, j),
{
    let i = lemma_leading_count(s);
    let body = s.skip(i);
    let j = lemma_trailing_count(body);
    assert(body.take(j) =~= s.subrange(i, i + j));
    assert(s.skip(i + j) =~= body.skip(j));
    assert(is_core(s, i, i + j));
}

/// Nothing is left of a text when it is trimmed exactly if it holds nothing but white space.
pub proof fn law_blank(s: Seq<char>)
    ensures
        trimmed(s).len() == 0 <==> all_space(s),
{
    law_trimmed_is_the_core(s);
    let (i, j) = choose|i: int, j: int|
        #[trigger] is_core(s, i, j) && trimmed(s) == s.subrange(i, j);
    if i == j {
        assert forall|n: int| 0 <= n < s.len() implies is_space(#[trigger] s[n]) by {
            if n < i {
                assert(is_space(s.take(i)[n]));
            } else {
                assert(is_space(s.skip(j)[n - j]));
            }
        }
    } else {
        assert(!is_space(s[i]));
    }
}

/// White space is no letter, digit or punctuation mark of ASCII; a space, a tab and the ends of
/// lines are white space.
pub proof fn law_space(c: char)
    ensures
        0x21 <= c as u32 <= 0x7e ==> !is_space(c),
        is_space(' ') && is_space('\t') && is_space('\n') && is_space('\r'),
{
}

} // verus!
