//! A whole title's download: accumulating the paged chapter feed, naming
//! each chapter's directory, and the fan-out bookkeeping — which units
//! actually need fetching, aggregate progress, and the first fatal error
//! of a batch. The concurrent tasks themselves run outside, each gated by
//! the admission controller and the retry coordinator.

use vstd::prelude::*;

use crate::api::chapter::ChapterData;
use crate::common::{decimal_string, push_char, spec_decimal, spec_zero_padded, zero_padded_decimal};
use crate::retry::DownloadError;
use crate::uuid_value::UuidValue;

verus! {

/// The whole chapter list of one title, in feed order.
#[derive(Debug, Clone)]
pub struct TitleData {
    pub chapters: Vec<ChapterData>,
}

/// A chapter-name character made safe for a path: NUL becomes `0`, the
/// path separator becomes a backslash.
pub open spec fn spec_sanitized_char(c: char) -> char {
    if c == '\x00' {
        '0'
    } else if c == '/' {
        '\\'
    } else {
        c
    }
}

/// A chapter name with every character made safe for a path.
pub open spec fn spec_sanitized(s: Seq<char>) -> Seq<char> {
    s.map_values(|c: char| spec_sanitized_char(c))
}

/// Replaces NUL with `0` and `/` with `\`, so a chapter name can serve as
/// part of a directory name.
pub fn sanitize_chapter_name(name: &str) -> (r: String)
    ensures
        r@ == spec_sanitized(name@),
{
    let mut r = String::new();
    let len = name.unicode_len();
    let mut i: usize = 0;
    while i < len
        invariant
            len == name@.len(),
            i <= len,
            r@ == name@.take(i as int).map_values(|c: char| spec_sanitized_char(c)),
        decreases len - i,
    {
        let c = name.get_char(i);
        let e = if c == '\x00' {
            '0'
        } else if c == '/' {
            '\\'
        } else {
            c
        };
        push_char(&mut r, e);
        proof {
            assert(name@.take(i + 1).map_values(|c: char| spec_sanitized_char(c)) =~= name@.take(
                i as int,
            ).map_values(|c: char| spec_sanitized_char(c)).push(spec_sanitized_char(
                name@[i as int],
            )));
        }
        i = i + 1;
    }
    proof {
        assert(name@.take(len as int) =~= name@);
    }
    r
}

/// The directory name of the chapter numbered `dir_num` (1-based feed
/// position): `md`, the number zero-padded to five digits, the chapter id,
/// and the sanitized chapter title (empty when the chapter has none), the
/// three joined by ` - `.
pub open spec fn spec_chapter_dir_name(dir_num: nat, chapter: ChapterData) -> Seq<char> {
    "md"@ + spec_zero_padded(dir_num, 5) + " - "@ + chapter.id@ + " - "@ + (
    match chapter.attributes.title {
        Some(t) => spec_sanitized(t@),
        None => Seq::empty(),
    })
}

/// The URL of one page of a title's chapter feed.
pub open spec fn spec_feed_url(title_id: Seq<char>, offset: nat, lang_code: Seq<char>) -> Seq<
    char,
> {
    "https://api.mangadex.org/manga/"@ + title_id + "/feed?offset="@ + spec_decimal(offset)
        + "&limit=500&translatedLanguage[]="@ + lang_code
        + "&order[volume]=asc&order[chapter]=asc"@
}

/// The URL of the feed page at `offset` for `title_id`.
pub fn feed_url(title_id: &UuidValue, offset: usize, lang_code: &str) -> (s: String)
    ensures
        s@ == spec_feed_url(title_id@, offset as nat, lang_code@),
{
    let mut s = "https://api.mangadex.org/manga/".to_owned();
    s.append(title_id.as_str());
    s.append("/feed?offset=");
    s.append(decimal_string(offset as u64).as_str());
    s.append("&limit=500&translatedLanguage[]=");
    s.append(lang_code);
    s.append("&order[volume]=asc&order[chapter]=asc");
    s
}

impl TitleData {
    /// The directory name of each chapter, in feed order: chapter `i` goes
    /// to the name numbered `i + 1`.
    pub fn chapter_dir_names(&self) -> (names: Vec<String>)
        ensures
            names@.len() == self.chapters@.len(),
            forall|i: int|
                0 <= i < names@.len() ==> (#[trigger] names@[i])@ == spec_chapter_dir_name(
                    (i + 1) as nat,
                    self.chapters@[i],
                ),
    {
        let mut names: Vec<String> = Vec::new();
        let n = self.chapters.len();
        let mut i: usize = 0;
        while i < n
            invariant
                n == self.chapters@.len(),
                i <= n,
                names@.len() == i,
                forall|k: int|
                    0 <= k < i ==> (#[trigger] names@[k])@ == spec_chapter_dir_name(
                        (k + 1) as nat,
                        self.chapters@[k],
                    ),
            decreases n - i,
        {
            let mut s = "md".to_owned();
            s.append(zero_padded_decimal((i + 1) as u64, 5).as_str());
            s.append(" - ");
            s.append(self.chapters[i].id.as_str());
            s.append(" - ");
            match &self.chapters[i].attributes.title {
                Some(t) => {
                    let st = sanitize_chapter_name(t.as_str());
                    s.append(st.as_str());
                },
                None => {},
            }
            names.push(s);
            i = i + 1;
        }
        names
    }
}

/// Accumulates the paged chapter feed of one title: pages are fetched
/// outside and pushed here until the feed reports itself exhausted.
#[derive(Debug)]
pub struct FeedPager {
    pub chapters: Vec<ChapterData>,
    pub offset: usize,
}

impl FeedPager {
    pub fn new() -> (p: FeedPager)
        ensures
            p.chapters@.len() == 0,
            p.offset == 0,
    {
        FeedPager { chapters: Vec::new(), offset: 0 }
    }

    /// Takes in one feed page: its records are appended in order, the
    /// offset advances by their number, and the feed is done once the
    /// offset reaches the total the page reported.
    pub fn push_page(&mut self, page: Vec<ChapterData>, total: usize) -> (done: bool)
        requires
            old(self).offset + page@.len() <= usize::MAX,
        ensures
            final(self).chapters@ == old(self).chapters@ + page@,
            final(self).offset == old(self).offset + page@.len(),
            done == (final(self).offset >= total),
    {
        let mut page = page;
        let n = page.len();
        self.chapters.append(&mut page);
        self.offset = self.offset + n;
        self.offset >= total
    }

    /// The accumulated feed as a title.
    pub fn into_title(self) -> (t: TitleData)
        ensures
            t.chapters@ == self.chapters@,
    {
        TitleData { chapters: self.chapters }
    }
}

/// No earlier unit has the same identity.
pub open spec fn spec_is_first_occurrence(ids: Seq<Seq<char>>, j: int) -> bool {
    forall|k: int| 0 <= k < j ==> ids[k] != ids[j]
}

/// Which units actually need fetching: of the units (given by identity)
/// whose output does not already exist, the first occurrence of each
/// distinct identity, in their given order. Duplicates are never
/// scheduled, an already-present output is never fetched again — so a
/// rerun over fully present outputs fetches nothing.
pub fn plan_fetches(ids: &Vec<UuidValue>, already_done: &Vec<bool>) -> (plan: Vec<usize>)
    requires
        ids@.len() == already_done@.len(),
    ensures
        forall|a: int, b: int| 0 <= a < b < plan@.len() ==> plan@[a] < plan@[b],
        forall|a: int|
            0 <= a < plan@.len() ==> (#[trigger] plan@[a]) < ids@.len() && !already_done@[plan@[a] as int]
                && spec_is_first_occurrence(ids@.map_values(|u: UuidValue| u@), plan@[a] as int),
        forall|j: int|
            0 <= j < ids@.len() && !already_done@[j] && spec_is_first_occurrence(
                ids@.map_values(|u: UuidValue| u@),
                j,
            ) ==> plan@.contains(j as usize),
        (forall|j: int| 0 <= j < already_done@.len() ==> already_done@[j]) ==> plan@.len() == 0,
{
    let ghost vids = ids@.map_values(|u: UuidValue| u@);
    let mut plan: Vec<usize> = Vec::new();
    let n = ids.len();
    let mut j: usize = 0;
    while j < n
        invariant
            n == ids@.len(),
            ids@.len() == already_done@.len(),
            vids == ids@.map_values(|u: UuidValue| u@),
            j <= n,
            forall|a: int, b: int| 0 <= a < b < plan@.len() ==> plan@[a] < plan@[b],
            forall|a: int| 0 <= a < plan@.len() ==> (#[trigger] plan@[a]) < j,
            forall|a: int|
                0 <= a < plan@.len() ==> (#[trigger] plan@[a]) < ids@.len()
                    && !already_done@[plan@[a] as int] && spec_is_first_occurrence(
                    vids,
                    plan@[a] as int,
                ),
            forall|k: int|
                0 <= k < j && !already_done@[k] && spec_is_first_occurrence(vids, k)
                    ==> plan@.contains(k as usize),
        decreases n - j,
    {
        let ghost plan_pre = plan@;
        if !already_done[j] {
            let mut duplicate = false;
            let mut k: usize = 0;
            while k < j
                invariant
                    j < n,
                    n == ids@.len(),
                    vids == ids@.map_values(|u: UuidValue| u@),
                    k <= j,
                    duplicate <==> (exists|m: int| 0 <= m < k && vids[m] == vids[j as int]),
                decreases j - k,
            {
                proof {
                    assert(vids[k as int] == ids@[k as int]@);
                    assert(vids[j as int] == ids@[j as int]@);
                }
                if ids[k].same_id(&ids[j]) {
                    duplicate = true;
                    proof {
                        assert(exists|m: int| 0 <= m < k + 1 && vids[m] == vids[j as int]);
                    }
                } else {
                    proof {
                        if !duplicate {
                            assert forall|m: int|
                                0 <= m < k + 1 && vids[m] == vids[j as int] implies false by {
                                if m < k {
                                    assert(exists|m2: int|
                                        0 <= m2 < k && vids[m2] == vids[j as int]);
                                }
                            }
                        }
                    }
                }
                k = k + 1;
            }
            if !duplicate {
                plan.push(j);
                proof {
                    assert(plan@ == plan_pre.push(j));
                    assert(plan@[plan@.len() - 1] == j);
                    assert(spec_is_first_occurrence(vids, j as int));
                    assert forall|k2: int|
                        0 <= k2 < j + 1 && !already_done@[k2] && spec_is_first_occurrence(
                            vids,
                            k2,
                        ) implies plan@.contains(k2 as usize) by {
                        if k2 < j {
                            assert(plan_pre.contains(k2 as usize));
                            let w = choose|w: int|
                                0 <= w < plan_pre.len() && plan_pre[w] == k2 as usize;
                            assert(plan@[w] == k2 as usize);
                        } else {
                            assert(plan@[plan@.len() - 1] == k2 as usize);
                        }
                    }
                }
            } else {
                proof {
                    let m = choose|m: int| 0 <= m < j && vids[m] == vids[j as int];
                    assert(!spec_is_first_occurrence(vids, j as int));
                }
            }
        }
        j = j + 1;
    }
    proof {
        if forall|j2: int| 0 <= j2 < already_done@.len() ==> already_done@[j2] {
            if plan@.len() > 0 {
                assert(!already_done@[plan@[0] as int]);
            }
        }
    }
    plan
}

/// The batch outcome: `Ok` when every task succeeded, else the first
/// error in the given (completion) order. All results are taken in — the
/// batch is drained, never abandoned at the first failure.
pub open spec fn spec_first_fatal(results: Seq<Result<(), DownloadError>>) -> Result<
    (),
    DownloadError,
>
    decreases results.len(),
{
    if results.len() == 0 {
        Ok(())
    } else if results[0] is Err {
        results[0]
    } else {
        spec_first_fatal(results.skip(1))
    }
}

/// Folds a drained batch of task results into the one surfaced result:
/// `Ok` exactly when every task succeeded, else the first error.
pub fn first_fatal(results: Vec<Result<(), DownloadError>>) -> (outcome: Result<
    (),
    DownloadError,
>)
    ensures
        outcome == spec_first_fatal(results@),
        outcome is Ok <==> (forall|i: int| 0 <= i < results@.len() ==> (#[trigger] results@[i]) is Ok),
    decreases results@.len(),
{
    let mut results = results;
    if results.len() == 0 {
        return Ok(());
    }
    let ghost whole = results@;
    let head = results.remove(0);
    proof {
        assert(whole.remove(0) =~= whole.skip(1));
    }
    match head {
        Err(e) => Err(e),
        Ok(_) => {
            let v = first_fatal(results);
            proof {
                if v is Ok {
                    assert forall|i: int| 0 <= i < whole.len() implies (#[trigger] whole[i]) is Ok by {
                        if i > 0 {
                            assert(whole.skip(1)[i - 1] is Ok);
                        }
                    }
                }
            }
            v
        },
    }
}

/// Aggregate progress of a fan-out batch: completed units out of the
/// total, advanced by one as each task finishes, in whatever order.
#[derive(Debug, Clone, Copy, PartialEq, Eq, Structural)]
pub struct Progress {
    pub completed: u64,
    pub total: u64,
}

impl Progress {
    pub open spec fn wf(&self) -> bool {
        self.completed <= self.total
    }

    pub fn new(total: u64) -> (p: Progress)
        ensures
            p.completed == 0,
            p.total == total,
            p.wf(),
    {
        Progress { completed: 0, total }
    }

    /// One more unit is done. Progress only ever moves forward.
    pub fn advance(&mut self)
        requires
            old(self).wf(),
            old(self).completed < old(self).total,
        ensures
            final(self).completed == old(self).completed + 1,
            final(self).total == old(self).total,
            final(self).wf(),
    {
        self.completed = self.completed + 1;
    }

    pub fn is_done(&self) -> (r: bool)
        ensures
            r == (self.completed == self.total),
    {
        self.completed == self.total
    }
}

} // verus!
