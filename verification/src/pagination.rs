//! The paginated response assembler.
//!
//! A multi-page answer arrives as JSON array pages chained by a `Link`
//! response header whose `rel="next"` entry points at the following page.
//! The assembler is a pure state machine: the caller executes each fetch
//! and feeds the page back; the assembler concatenates the pages'
//! elements in order and yields one array, or the first page's failure.
//! An HTTP 403 at any page aborts the whole assembly as an
//! authentication failure, and no partial result survives.

use vstd::prelude::*;
use vstd::string::StrSliceExecFns;

use crate::error::ZoteroApiError;
use crate::json::JsonValue;

verus! {

/// The first position at or after `i` where `c` occurs.
pub open spec fn find_char_from(s: Seq<char>, c: char, i: int) -> Option<int>
    decreases s.len() - i,
{
    if i < 0 || i >= s.len() {
        None
    } else if s[i] == c {
        Some(i)
    } else {
        find_char_from(s, c, i + 1)
    }
}

/// What the finder returns, spelled out.
pub(crate) proof fn lemma_find_char_props(s: Seq<char>, c: char, from: int)
    requires
        0 <= from,
    ensures
        match find_char_from(s, c, from) {
            Some(i) => from <= i < s.len() && s[i] == c && forall|j: int|
                from <= j < i ==> s[j] != c,
            None => forall|j: int| from <= j < s.len() ==> s[j] != c,
        },
    decreases s.len() - from,
{
    if from < s.len() && s[from] != c {
        lemma_find_char_props(s, c, from + 1);
    }
}

/// Finds the first occurrence of `c` at or after `from`.
#[verifier::loop_isolation(false)]
fn find_char(s: &str, c: char, from: usize) -> (r: Option<usize>)
    requires
        from <= s@.len(),
        s@.len() <= usize::MAX,
    ensures
        match r {
            Some(i) => find_char_from(s@, c, from as int) == Some(i as int),
            None => find_char_from(s@, c, from as int) is None,
        },
{
    let n = s.unicode_len();
    let mut i: usize = from;
    while i < n
        invariant
            from <= i <= n,
            n == s@.len(),
            forall|j: int| from <= j < i ==> s@[j] != c,
        decreases n - i,
    {
        if s.get_char(i) == c {
            proof {
                lemma_find_char_props(s@, c, from as int);
            }
            return Some(i);
        }
        i += 1;
    }
    proof {
        lemma_find_char_props(s@, c, from as int);
    }
    None
}

/// Whether `sub` occurs at position `i` of `s`.
pub open spec fn contains_at(s: Seq<char>, sub: Seq<char>, i: int) -> bool {
    0 <= i && i + sub.len() <= s.len() && s.subrange(i, i + sub.len()) == sub
}

/// The first position at or after `i` where `sub` occurs.
pub open spec fn find_sub_from(s: Seq<char>, sub: Seq<char>, i: int) -> Option<int>
    decreases s.len() - i + 1,
{
    if i < 0 || i + sub.len() > s.len() {
        None
    } else if contains_at(s, sub, i) {
        Some(i)
    } else {
        find_sub_from(s, sub, i + 1)
    }
}

/// What the substring finder returns, spelled out.
proof fn lemma_find_sub_props(s: Seq<char>, sub: Seq<char>, from: int)
    requires
        0 <= from,
    ensures
        match find_sub_from(s, sub, from) {
            Some(i) => from <= i && i + sub.len() <= s.len() && contains_at(s, sub, i)
                && forall|j: int| from <= j < i ==> !contains_at(s, sub, j),
            None => forall|j: int| from <= j ==> !contains_at(s, sub, j),
        },
    decreases s.len() - from + 1,
{
    if from + sub.len() <= s.len() && !contains_at(s, sub, from) {
        lemma_find_sub_props(s, sub, from + 1);
    }
}

/// Finds the first occurrence of `sub` at or after `from`.
#[verifier::loop_isolation(false)]
fn find_sub(s: &str, sub: &str, from: usize) -> (r: Option<usize>)
    requires
        from <= s@.len(),
        s@.len() <= usize::MAX,
        0 < sub@.len() <= usize::MAX,
    ensures
        match r {
            Some(i) => find_sub_from(s@, sub@, from as int) == Some(i as int),
            None => find_sub_from(s@, sub@, from as int) is None,
        },
{
    let n = s.unicode_len();
    let m = sub.unicode_len();
    let mut i: usize = from;
    while i <= n && n - i >= m
        invariant
            from <= i,
            i <= n + 1,
            n == s@.len(),
            m == sub@.len(),
            forall|k: int| from <= k < i ==> !contains_at(s@, sub@, k),
        decreases n - i,
    {
        let mut j: usize = 0;
        let mut all: bool = true;
        while j < m
            invariant
                j <= m,
                i + m <= n,
                all ==> forall|t: int| 0 <= t < j ==> s@[i + t] == sub@[t],
                !all ==> !contains_at(s@, sub@, i as int),
            decreases m - j,
        {
            if s.get_char(i + j) != sub.get_char(j) {
                all = false;
                proof {
                    assert(s@[i + j] != sub@[j as int]);
                    if contains_at(s@, sub@, i as int) {
                        assert(s@.subrange(i as int, i + m)[j as int] == s@[i + j]);
                    }
                }
                j = m;
            } else {
                j += 1;
            }
        }
        if all {
            proof {
                assert(s@.subrange(i as int, i + m) =~= sub@);
                assert(contains_at(s@, sub@, i as int));
                lemma_find_sub_props(s@, sub@, from as int);
            }
            return Some(i);
        }
        i += 1;
    }
    proof {
        assert forall|k: int| from <= k implies !contains_at(s@, sub@, k) by {
            if k < i as int {
                assert(!contains_at(s@, sub@, k));
            }
        }
        lemma_find_sub_props(s@, sub@, from as int);
    }
    None
}

/// Whether the relation token `next` stands at position `i` of the
/// relation list spanning `[lo, hi)` of `s`: the four characters, bounded
/// by the list's ends or by spaces.
pub open spec fn next_token_at(s: Seq<char>, lo: int, hi: int, i: int) -> bool {
    &&& lo <= i
    &&& i + 4 <= hi
    &&& s.subrange(i, i + 4) == "next"@
    &&& (i == lo || s[i - 1] == ' ')
    &&& (i + 4 == hi || s[i + 4] == ' ')
}

/// Whether the relation list spanning `[lo, hi)` of `s` names `next`.
pub open spec fn has_next_token(s: Seq<char>, lo: int, hi: int) -> bool {
    exists|i: int| next_token_at(s, lo, hi, i)
}

/// Whether a header segment's `rel` parameter names the `next` relation:
/// the quoted, space-separated relation list after `rel="` carries the
/// token `next` — so `rel="next"` and `rel="prev next"` both do, while
/// `rel="nextgen"` does not.
pub open spec fn rel_is_next(seg: Seq<char>) -> bool {
    match find_sub_from(seg, "rel=\""@, 0) {
        None => false,
        Some(p) => match find_char_from(seg, '"', p + 5) {
            None => false,
            Some(q) => has_next_token(seg, p + 5, q),
        },
    }
}

/// Whether the relation list `[lo, hi)` of `s` carries the token `next`.
#[verifier::loop_isolation(false)]
fn token_next_in(s: &str, lo: usize, hi: usize) -> (r: bool)
    requires
        lo <= hi <= s@.len(),
        s@.len() <= usize::MAX,
    ensures
        r == has_next_token(s@, lo as int, hi as int),
{
    proof {
        reveal_strlit("next");
    }
    let mut i: usize = lo;
    while hi - i >= 4
        invariant
            lo <= i <= hi,
            forall|k: int| lo <= k < i ==> !next_token_at(s@, lo as int, hi as int, k),
        decreases hi - i,
    {
        let bounded_left = i == lo || s.get_char(i - 1) == ' ';
        let word = s.get_char(i) == 'n' && s.get_char(i + 1) == 'e' && s.get_char(i + 2) == 'x'
            && s.get_char(i + 3) == 't';
        let bounded_right = i + 4 == hi || s.get_char(i + 4) == ' ';
        if bounded_left && word && bounded_right {
            proof {
                assert(s@.subrange(i as int, i + 4) =~= "next"@);
                assert(next_token_at(s@, lo as int, hi as int, i as int));
            }
            return true;
        }
        proof {
            if next_token_at(s@, lo as int, hi as int, i as int) {
                assert(s@.subrange(i as int, i + 4) == "next"@);
                assert(s@.subrange(i as int, i + 4)[0] == s@[i as int]);
                assert(s@.subrange(i as int, i + 4)[1] == s@[i + 1]);
                assert(s@.subrange(i as int, i + 4)[2] == s@[i + 2]);
                assert(s@.subrange(i as int, i + 4)[3] == s@[i + 3]);
            }
        }
        i += 1;
    }
    proof {
        assert forall|k: int| !next_token_at(s@, lo as int, hi as int, k) by {
            if lo <= k < i as int {
                assert(!next_token_at(s@, lo as int, hi as int, k));
            }
        }
    }
    false
}

/// Whether a header segment names the `next` relation.
#[verifier::loop_isolation(false)]
fn segment_is_next(seg: &str) -> (r: bool)
    requires
        seg@.len() <= usize::MAX,
    ensures
        r == rel_is_next(seg@),
{
    proof {
        reveal_strlit("rel=\"");
    }
    let p = match find_sub(seg, "rel=\"", 0) {
        None => {
            return false;
        },
        Some(p) => p,
    };
    proof {
        lemma_find_sub_props(seg@, "rel=\""@, 0);
    }
    let q = match find_char(seg, '"', p + 5) {
        None => {
            return false;
        },
        Some(q) => q,
    };
    proof {
        lemma_find_char_props(seg@, '"', p + 5 as int);
    }
    token_next_in(seg, p + 5, q)
}

/// The URL between the first `<` and the following `>` of a header
/// segment, if both are there.
pub open spec fn extract_angle(seg: Seq<char>) -> Option<Seq<char>> {
    match find_char_from(seg, '<', 0) {
        None => None,
        Some(a) => match find_char_from(seg, '>', a + 1) {
            None => None,
            Some(b) => Some(seg.subrange(a + 1, b)),
        },
    }
}

/// The continuation URL of a `Link` header text: among the comma-split
/// segments, the first whose `rel` relation list names `next` gives the
/// URL it wraps in angle brackets.
pub open spec fn next_link_from(s: Seq<char>) -> Option<Seq<char>>
    decreases s.len(),
{
    let seg = match find_char_from(s, ',', 0) {
        None => s,
        Some(i) => s.take(i),
    };
    if rel_is_next(seg) {
        extract_angle(seg)
    } else {
        match find_char_from(s, ',', 0) {
            None => None,
            Some(i) => if 0 <= i < s.len() {
                next_link_from(s.skip(i + 1))
            } else {
                None
            },
        }
    }
}

/// Parses a `Link` response header and yields the `rel="next"` URL, if
/// the header carries one.
#[verifier::loop_isolation(false)]
pub fn next_link(header: &str) -> (r: Option<String>)
    ensures
        match next_link_from(header@) {
            Some(u) => r matches Some(s) && s@ == u,
            None => r is None,
        },
{
    let mut rem: &str = header;
    let mut n = rem.unicode_len();
    loop
        invariant
            n == rem@.len(),
            next_link_from(header@) == next_link_from(rem@),
        decreases rem@.len(),
    {
        proof {
            lemma_find_char_props(rem@, ',', 0);
        }
        let ci = find_char(rem, ',', 0);
        let seg: &str = match ci {
            Some(i) => rem.substring_char(0, i),
            None => rem,
        };
        proof {
            match find_char_from(rem@, ',', 0) {
                Some(i) => {
                    assert(seg@ =~= rem@.take(i));
                },
                None => {},
            }
        }
        if segment_is_next(seg) {
            proof {
                lemma_find_char_props(seg@, '<', 0);
            }
            let a = match find_char(seg, '<', 0) {
                Some(a) => a,
                None => {
                    return None;
                },
            };
            proof {
                lemma_find_char_props(seg@, '>', a + 1 as int);
            }
            let b = match find_char(seg, '>', a + 1) {
                Some(b) => b,
                None => {
                    return None;
                },
            };
            let url = seg.substring_char(a + 1, b);
            return Some(url.to_owned());
        }
        match ci {
            Some(i) => {
                let ghost prev = rem@;
                rem = rem.substring_char(i + 1, n);
                proof {
                    assert(rem@ =~= prev.skip(i + 1));
                }
                n = rem.unicode_len();
            },
            None => {
                return None;
            },
        }
    }
}

/// What one step of the assembler asks the caller to do next.
#[derive(Debug, PartialEq)]
pub enum PageStep {
    /// Fetch the next page at this URL, with the same authorization.
    Continue(String),
    /// The assembly is complete; this is the logical response body.
    Done(JsonValue),
}

/// The paginated response assembler: feed it every page in order.
#[derive(Debug, PartialEq)]
pub struct PageAssembler {
    /// The elements gathered from the array pages so far.
    pub collected: Vec<JsonValue>,
    /// Whether a first page was fed.
    pub started: bool,
    /// Whether a continuation link made this a multi-page assembly.
    pub multi: bool,
    /// Whether the assembly ended.
    pub done: bool,
}

impl PageAssembler {
    /// A fresh assembler, before the first page.
    pub fn new() -> (r: PageAssembler)
        ensures
            !r.started,
            !r.multi,
            !r.done,
            r.collected@ == Seq::<JsonValue>::empty(),
    {
        let collected: Vec<JsonValue> = Vec::new();
        proof {
            assert(collected@ =~= Seq::<JsonValue>::empty());
        }
        PageAssembler { collected, started: false, multi: false, done: false }
    }

    /// Feeds one page: its HTTP status, its decoded body, and the
    /// `rel="next"` URL of its `Link` header if one was there.
    ///
    /// A 403 aborts the whole assembly as an authentication failure and
    /// nothing of earlier pages survives.  A single-page answer passes
    /// its body through untouched.  Once a continuation link appears,
    /// every page must be a JSON array; the final body is one array
    /// holding the concatenation of all pages' elements, in order.
    pub fn feed(self, status: u16, body: JsonValue, next_link: Option<String>) -> (r: Result<
        (PageAssembler, PageStep),
        ZoteroApiError,
    >)
        requires
            !self.done,
            self.started ==> self.multi,
        ensures
            status == 403 ==> (r matches Err(e) && e is AuthenticationError),
            status != 403 && !self.started && next_link is None ==> (r matches Ok(p) && p.1
                == PageStep::Done(body) && p.0.done),
            status != 403 && !self.started && next_link is Some ==> (if body is Arr {
                r matches Ok(p) && p.0.started && p.0.multi && !p.0.done && p.0.collected@
                    == body->Arr_0@ && p.1 == PageStep::Continue(next_link->Some_0)
            } else {
                r matches Err(e) && e is ParseResponseError
            }),
            status != 403 && self.started ==> (if body is Arr {
                r matches Ok(p) && (match next_link {
                    Some(u) => p.0.started && p.0.multi && !p.0.done && p.0.collected@
                        == self.collected@ + body->Arr_0@ && p.1 == PageStep::Continue(u),
                    None => p.0.done && (p.1 matches PageStep::Done(out) && out is Arr
                        && out->Arr_0@ == self.collected@ + body->Arr_0@),
                })
            } else {
                r matches Err(e) && e is ParseResponseError
            }),
    {
        if status == 403 {
            return Err(
                ZoteroApiError::AuthenticationError(
                    "the server refused the request with HTTP 403".to_owned(),
                ),
            );
        }
        if !self.started {
            match next_link {
                None => {
                    return Ok(
                        (
                            PageAssembler {
                                collected: self.collected,
                                started: true,
                                multi: false,
                                done: true,
                            },
                            PageStep::Done(body),
                        ),
                    );
                },
                Some(u) => match body {
                    JsonValue::Arr(elems) => {
                        return Ok(
                            (
                                PageAssembler {
                                    collected: elems,
                                    started: true,
                                    multi: true,
                                    done: false,
                                },
                                PageStep::Continue(u),
                            ),
                        );
                    },
                    _ => {
                        return Err(
                            ZoteroApiError::ParseResponseError(
                                "a paginated answer must be a JSON array on every page".to_owned(),
                            ),
                        );
                    },
                },
            }
        }
        let mut collected = self.collected;
        match body {
            JsonValue::Arr(elems) => {
                let mut tail = elems;
                collected.append(&mut tail);
            },
            _ => {
                return Err(
                    ZoteroApiError::ParseResponseError(
                        "a paginated answer must be a JSON array on every page".to_owned(),
                    ),
                );
            },
        }
        match next_link {
            Some(u) => Ok(
                (
                    PageAssembler { collected, started: true, multi: true, done: false },
                    PageStep::Continue(u),
                ),
            ),
            None => Ok(
                (
                    PageAssembler {
                        collected: Vec::new(),
                        started: true,
                        multi: true,
                        done: true,
                    },
                    PageStep::Done(JsonValue::Arr(collected)),
                ),
            ),
        }
    }
}

/// The elements of a run of array pages, concatenated in order.
pub open spec fn concat_pages(pages: Seq<(u16, JsonValue, Option<String>)>) -> Seq<JsonValue>
    decreases pages.len(),
{
    if pages.len() == 0 {
        Seq::<JsonValue>::empty()
    } else {
        pages[0].1->Arr_0@ + concat_pages(pages.skip(1))
    }
}

/// The whole pagination protocol in one statement: given a run of array
/// pages where every page but the last carries a continuation link, the
/// assembler yields exactly one array holding the concatenation of all
/// pages' elements, in order — unless some page answered HTTP 403, in
/// which case the whole run is an authentication failure and no partial
/// result survives.
#[verifier::loop_isolation(false)]
pub fn assemble_pages(pages: Vec<(u16, JsonValue, Option<String>)>) -> (r: Result<
    JsonValue,
    ZoteroApiError,
>)
    requires
        pages@.len() >= 1,
        forall|i: int|
            0 <= i < pages@.len() - 1 ==> (#[trigger] pages@[i]).2 is Some,
        pages@[pages@.len() - 1].2 is None,
        forall|i: int| 0 <= i < pages@.len() ==> (#[trigger] pages@[i]).1 is Arr,
    ensures
        (forall|i: int| 0 <= i < pages@.len() ==> (#[trigger] pages@[i]).0 != 403) ==> (r matches
            Ok(out) && out is Arr && out->Arr_0@ == concat_pages(pages@)),
        (exists|i: int| 0 <= i < pages@.len() && (#[trigger] pages@[i]).0 == 403) ==> (r matches
            Err(e) && e is AuthenticationError),
{
    let ghost orig = pages@;
    let n = pages.len();
    let mut rest = pages;
    let mut assembler = PageAssembler::new();
    let mut i: usize = 0;
    while i < n
        invariant
            i < n,
            n == orig.len(),
            rest@ =~= orig.skip(i as int),
            forall|j: int| 0 <= j < i ==> (#[trigger] orig[j]).0 != 403,
            !assembler.done,
            assembler.started ==> assembler.multi,
            i > 0 ==> assembler.started,
            i == 0 ==> !assembler.started,
            assembler.started ==> assembler.collected@ == concat_pages(orig.take(i as int))
                + Seq::<JsonValue>::empty(),
            !assembler.started ==> i == 0,
        decreases n - i,
    {
        let ghost pre = rest@;
        let (status, body, link) = rest.remove(0);
        proof {
            assert(pre[0] == orig[i as int]);
            assert(rest@ =~= orig.skip(i + 1 as int));
        }
        let ghost gbody = body;
        let ghost glink = link;
        let step = match assembler.feed(status, body, link) {
            Ok(p) => {
                assembler = p.0;
                p.1
            },
            Err(e) => {
                proof {
                    if status != 403 {
                        assert(orig[i as int].1 is Arr);
                        assert(false);
                    }
                    assert(orig[i as int].0 == 403);
                }
                return Err(e);
            },
        };
        proof {
            assert(orig[i as int].0 != 403);
            lemma_concat_take_snoc(orig, i as int);
        }
        match step {
            PageStep::Done(out) => {
                proof {
                    assert(glink is None);
                    assert(orig[i as int].2 is None);
                    assert(i as int == n - 1);
                    assert(orig.take(n as int) =~= orig);
                    if i == 0 {
                        assert(out == gbody);
                        assert(concat_pages(orig) =~= gbody->Arr_0@);
                    } else {
                        assert(out->Arr_0@ =~= concat_pages(orig));
                    }
                }
                return Ok(out);
            },
            PageStep::Continue(_) => {
                proof {
                    assert(glink is Some);
                    assert(orig[i as int].2 is Some);
                    assert(i as int != n - 1);
                    assert(assembler.collected@ =~= concat_pages(orig.take(i + 1 as int))
                        + Seq::<JsonValue>::empty());
                }
            },
        }
        i += 1;
    }
    proof {
        assert(orig[n - 1].2 is None);
        assert(false);
    }
    Err(
        ZoteroApiError::ParseResponseError(
            "a run of pages must end with a page without a continuation link".to_owned(),
        ),
    )
}

/// Taking one more page appends its elements.
proof fn lemma_concat_take_snoc(pages: Seq<(u16, JsonValue, Option<String>)>, i: int)
    requires
        0 <= i < pages.len(),
    ensures
        concat_pages(pages.take(i + 1)) == concat_pages(pages.take(i)) + pages[i].1->Arr_0@,
    decreases i,
{
    let a = pages.take(i + 1);
    let b = pages.take(i);
    if i == 0 {
        assert(a =~= seq![pages[0]]);
        assert(b =~= Seq::<(u16, JsonValue, Option<String>)>::empty());
        assert(a.skip(1) =~= Seq::<(u16, JsonValue, Option<String>)>::empty());
        assert(concat_pages(a) =~= concat_pages(b) + pages[0].1->Arr_0@);
    } else {
        lemma_concat_take_snoc(pages.skip(1), i - 1);
        assert(a[0] == pages[0]);
        assert(a.skip(1) =~= pages.skip(1).take(i));
        assert(b.skip(1) =~= pages.skip(1).take(i - 1));
        assert(pages.skip(1)[i - 1] == pages[i]);
        assert(concat_pages(a) =~= concat_pages(b) + pages[i].1->Arr_0@);
    }
}

} // verus!
