//! One chapter's download: combining the lookup responses into the data a
//! fetch needs, and computing every URL and output file name exactly. The
//! byte transfers themselves happen outside, behind the admission
//! controller and the retry coordinator.

use vstd::prelude::*;

use crate::api::at_home::ServerInfoResponse;
use crate::api::chapter::ChapterResponse;
use crate::common::{spec_zero_padded, zero_padded_decimal};
use crate::uuid_value::UuidValue;

verus! {

/// Everything a chapter download needs: identity, language, and where its
/// page files live.
#[derive(Debug, Clone)]
pub struct ChapterInfo {
    pub id: UuidValue,
    pub lang_code: String,
    pub hash: String,
    pub server: String,
    pub page_array: Vec<String>,
}

/// The URL that looks a chapter up.
pub open spec fn spec_chapter_info_url(id: Seq<char>) -> Seq<char> {
    "https://api.mangadex.org/chapter/"@ + id
}

/// The URL that asks which server hosts a chapter's pages.
pub open spec fn spec_at_home_url(id: Seq<char>) -> Seq<char> {
    "https://api.mangadex.org/at-home/server/"@ + id
}

/// Where a chapter's page files live on its assigned server.
pub open spec fn spec_url_base(server: Seq<char>, hash: Seq<char>) -> Seq<char> {
    server + "/data/"@ + hash
}

/// The URL of one page file.
pub open spec fn spec_page_url(url_base: Seq<char>, filename: Seq<char>) -> Seq<char> {
    url_base + "/"@ + filename
}

/// The position of the last `.` in `s`, if any.
pub open spec fn spec_last_dot(s: Seq<char>) -> Option<int>
    decreases s.len(),
{
    if s.len() == 0 {
        None
    } else if s[s.len() - 1] == '.' {
        Some(s.len() - 1)
    } else {
        spec_last_dot(s.drop_last())
    }
}

/// What follows the last `.` of a file name; a name without a dot counts
/// as its own extension.
pub open spec fn spec_extension(s: Seq<char>) -> Seq<char> {
    match spec_last_dot(s) {
        None => s,
        Some(k) => s.subrange(k + 1, s.len() as int),
    }
}

/// The local file name of page `index` (counted from 0): the 1-based page
/// number, zero-padded to four digits, then a dot and the remote file
/// name's extension.
pub open spec fn spec_page_file_name(index: int, filename: Seq<char>) -> Seq<char> {
    spec_zero_padded((index + 1) as nat, 4) + "."@ + spec_extension(filename)
}

impl ChapterInfo {
    /// Combines a chapter lookup and its server assignment. Pure data
    /// mapping: the two fetches happen outside.
    pub fn from_chapter_response(response: ChapterResponse, server_info: ServerInfoResponse) -> (
        c: ChapterInfo)
        ensures
            c.id@ == response.data.id@,
            c.lang_code@ == response.data.attributes.translated_language@,
            c.hash@ == server_info.chapter.hash@,
            c.server@ == server_info.base_url@,
            c.page_array@ == server_info.chapter.data@,
    {
        ChapterInfo {
            id: response.data.id,
            lang_code: response.data.attributes.translated_language,
            hash: server_info.chapter.hash,
            server: server_info.base_url,
            page_array: server_info.chapter.data,
        }
    }

    /// The URL that looks chapter `id` up.
    pub fn chapter_info_url(id: &UuidValue) -> (s: String)
        ensures
            s@ == spec_chapter_info_url(id@),
    {
        let mut s = "https://api.mangadex.org/chapter/".to_owned();
        s.append(id.as_str());
        s
    }

    /// The URL that asks which server hosts chapter `id`'s pages.
    pub fn at_home_url(id: &UuidValue) -> (s: String)
        ensures
            s@ == spec_at_home_url(id@),
    {
        let mut s = "https://api.mangadex.org/at-home/server/".to_owned();
        s.append(id.as_str());
        s
    }

    /// Where this chapter's page files live.
    pub fn url_base(&self) -> (s: String)
        ensures
            s@ == spec_url_base(self.server@, self.hash@),
    {
        let mut s = self.server.clone();
        s.append("/data/");
        s.append(self.hash.as_str());
        s
    }
}

/// The URL of one page file under `url_base`.
pub fn page_url(url_base: &str, filename: &str) -> (s: String)
    ensures
        s@ == spec_page_url(url_base@, filename@),
{
    let mut s = url_base.to_owned();
    s.append("/");
    s.append(filename);
    s
}

/// What follows the last `.` of `filename`; without a dot, the whole name.
pub fn extension_of(filename: &str) -> (e: String)
    ensures
        e@ == spec_extension(filename@),
{
    let len = filename.unicode_len();
    let mut k = len;
    proof {
        assert(filename@.take(len as int) =~= filename@);
    }
    while k > 0
        invariant
            k <= len,
            len == filename@.len(),
            spec_last_dot(filename@.take(k as int)) == spec_last_dot(filename@),
            forall|j: int| k <= j < len ==> filename@[j] != '.',
        decreases k,
    {
        let c = filename.get_char(k - 1);
        if c == '.' {
            let e = filename.substring_char(k, len);
            proof {
                assert(filename@.take(k as int).drop_last() =~= filename@.take(k - 1));
                assert(spec_last_dot(filename@) == Some(k - 1));
            }
            return e.to_owned();
        }
        proof {
            assert(filename@.take(k as int).drop_last() =~= filename@.take(k - 1));
        }
        k = k - 1;
    }
    proof {
        assert(filename@.take(0) =~= Seq::<char>::empty());
        assert(spec_last_dot(filename@) is None);
        assert(filename@.take(len as int) =~= filename@);
    }
    filename.to_owned()
}

/// The local file name of page `index` (counted from 0).
pub fn page_file_name(index: usize, filename: &str) -> (s: String)
    requires
        index < usize::MAX,
    ensures
        s@ == spec_page_file_name(index as int, filename@),
{
    let mut s = zero_padded_decimal((index + 1) as u64, 4);
    s.append(".");
    let e = extension_of(filename);
    s.append(e.as_str());
    s
}

} // verus!
