use vstd::prelude::*;

use crate::error::YouDlError;
use crate::models::{fetchable, PlayerResponse, StreamFormat};
use crate::strutil::{
    after_char, chars_to_string, illegal_in_file_name, lemma_after_char_at, lemma_sanitized_clean,
    occurs, sanitize_chars, sanitized, str_to_chars, take_until, take_until_exec,
};

verus! {

/// One concrete, directly fetchable stream: the host's numeric format
/// identifier (unique within one option list), a human-readable quality
/// label, the direct byte-stream URL, the video title, and the derived
/// output file name.
#[derive(Debug)]
pub struct DownloadOption {
    pub itag: u64,
    pub label: String,
    pub url: String,
    pub title: String,
    pub file_name: String,
}

/// The ordered list of download options for one video; the selection step
/// consumes exactly one element.
#[derive(Debug)]
pub struct DownloadOptions(pub Vec<DownloadOption>);

/// The file extension derived from a mime type: the subtype between the
/// first `'/'` and the first `';'` after it; `bin` when the mime type
/// carries no `'/'` at all.
pub open spec fn extension_of(mime: Seq<char>) -> Seq<char> {
    if occurs(mime, '/') {
        take_until(after_char(mime, '/'), ';')
    } else {
        "bin"@
    }
}

/// The output file name derived from a title and a mime type: the sanitized
/// title, a dot, and the extension.
pub open spec fn spec_file_name(title: Seq<char>, mime: Seq<char>) -> Seq<char> {
    sanitized(title) + "."@ + extension_of(mime)
}

/// The streams of `fs` that are directly fetchable, in declaration order.
pub open spec fn fetchable_of(fs: Seq<StreamFormat>) -> Seq<StreamFormat>
    decreases fs.len(),
{
    if fs.len() == 0 {
        Seq::empty()
    } else {
        fetchable_of(fs.drop_last()) + (if fetchable(fs.last()) {
            seq![fs.last()]
        } else {
            Seq::empty()
        })
    }
}

/// The download candidates of a record under the given inclusion policy:
/// every fetchable progressive stream, in declaration order, followed by
/// every fetchable adaptive stream when the policy accepts adaptive streams.
pub open spec fn spec_candidates(r: PlayerResponse, include_adaptive: bool) -> Seq<StreamFormat> {
    fetchable_of(r.formats@) + (if include_adaptive {
        fetchable_of(r.adaptive_formats@)
    } else {
        Seq::empty()
    })
}

/// Whether the download option `o` is the one derived from stream `f` of a
/// record titled `title`.
pub open spec fn option_matches(o: DownloadOption, f: StreamFormat, title: Seq<char>) -> bool {
    &&& o.itag == f.itag
    &&& o.label@ == f.quality_label@
    &&& f.url matches Some(u) && o.url@ == u@
    &&& o.title@ == title
    &&& o.file_name@ == spec_file_name(title, f.mime_type@)
}

/// Whether `os` is, element by element, the option list derived from the
/// candidate streams `fs` of a record titled `title`.
pub open spec fn options_match(os: Seq<DownloadOption>, fs: Seq<StreamFormat>, title: Seq<char>) -> bool {
    os.len() == fs.len() && (forall|i: int| 0 <= i < fs.len() ==> option_matches(os[i], fs[i], title))
}

/// The message of the `Unsupported` failure: it names the video and
/// recommends the external fallback tool.
pub open spec fn spec_unsupported_message(title: Seq<char>) -> Seq<char> {
    "no directly downloadable streams for `"@ + title
        + "`; retry with the `-w` flag to use youtube-dl"@
}

fn extension_chars(mime: &Vec<char>) -> (r: Vec<char>)
    ensures
        r@ == extension_of(mime@),
{
    let n: usize = mime.len();
    let mut i: usize = 0;
    while i < n
        invariant
            i <= n,
            n == mime@.len(),
            forall|k: int| 0 <= k < i ==> mime@[k] != '/',
        decreases n - i,
    {
        if mime[i] == '/' {
            proof {
                assert(occurs(mime@, '/'));
                lemma_after_char_at(mime@, '/', i as int);
            }
            return take_until_exec(mime, i + 1, ';');
        }
        i = i + 1;
    }
    proof {
        assert(!occurs(mime@, '/'));
    }
    str_to_chars("bin")
}

/// Derives the output file name from a title and a mime type.
pub fn file_name_for(title: &str, mime: &str) -> (r: String)
    ensures
        r@ == spec_file_name(title@, mime@),
{
    let title_chars = str_to_chars(title);
    let mut name = sanitize_chars(&title_chars);
    name.push('.');
    let mime_chars = str_to_chars(mime);
    let ext = extension_chars(&mime_chars);
    let m: usize = ext.len();
    let mut k: usize = 0;
    while k < m
        invariant
            k <= m,
            m == ext@.len(),
            name@ == sanitized(title@) + seq!['.'] + ext@.subrange(0, k as int),
        decreases m - k,
    {
        name.push(ext[k]);
        proof {
            assert(name@ =~= sanitized(title@) + seq!['.'] + ext@.subrange(0, k as int + 1));
        }
        k = k + 1;
    }
    proof {
        reveal_strlit(".");
        assert(ext@.subrange(0, m as int) =~= ext@);
        assert(name@ =~= spec_file_name(title@, mime@));
    }
    chars_to_string(&name)
}

fn make_option(f: &StreamFormat, url: &String, title: &String) -> (o: DownloadOption)
    requires
        f.url matches Some(u) && u@ == url@,
    ensures
        option_matches(o, *f, title@),
{
    DownloadOption {
        itag: f.itag,
        label: f.quality_label.clone(),
        url: url.clone(),
        title: title.clone(),
        file_name: file_name_for(title.as_str(), f.mime_type.as_str()),
    }
}

fn options_for(fs: &Vec<StreamFormat>, title: &String) -> (r: Vec<DownloadOption>)
    ensures
        options_match(r@, fetchable_of(fs@), title@),
{
    let n: usize = fs.len();
    let mut r: Vec<DownloadOption> = Vec::new();
    let mut i: usize = 0;
    while i < n
        invariant
            i <= n,
            n == fs@.len(),
            options_match(r@, fetchable_of(fs@.subrange(0, i as int)), title@),
        decreases n - i,
    {
        let f = &fs[i];
        match &f.url {
            Some(u) => {
                if f.signature_cipher.is_none() {
                    let o = make_option(f, u, title);
                    r.push(o);
                }
            },
            None => {},
        }
        proof {
            let pre = fs@.subrange(0, i as int);
            let cur = fs@.subrange(0, i as int + 1);
            assert(cur.drop_last() =~= pre);
            assert(cur.last() == fs@[i as int]);
            if fetchable(fs@[i as int]) {
                assert(fetchable_of(cur) =~= fetchable_of(pre) + seq![fs@[i as int]]);
            } else {
                assert(fetchable_of(cur) =~= fetchable_of(pre));
            }
        }
        i = i + 1;
    }
    proof {
        assert(fs@.subrange(0, n as int) =~= fs@);
    }
    r
}

fn unsupported_message(title: &String) -> (r: String)
    ensures
        r@ == spec_unsupported_message(title@),
{
    let mut m = String::from_str("no directly downloadable streams for `");
    m.append(title.as_str());
    m.append("`; retry with the `-w` flag to use youtube-dl");
    m
}

impl DownloadOptions {
    /// Builds the ordered option list of a metadata record: every directly
    /// fetchable progressive stream, followed, when the policy accepts them,
    /// by every directly fetchable adaptive stream, each in declaration
    /// order. Cipher-protected streams are excluded. When no candidate is
    /// left, the record is `Unsupported` and the message recommends the
    /// external fallback tool.
    pub fn build(response: &PlayerResponse, include_adaptive: bool) -> (r: Result<
        DownloadOptions,
        YouDlError,
    >)
        ensures
            match r {
                Ok(opts) => spec_candidates(*response, include_adaptive).len() > 0
                    && options_match(
                    opts.0@,
                    spec_candidates(*response, include_adaptive),
                    response.title@,
                ),
                Err(e) => spec_candidates(*response, include_adaptive).len() == 0 && (
                e matches YouDlError::Unsupported(m) && m@ == spec_unsupported_message(
                    response.title@,
                )),
            },
    {
        let mut all = options_for(&response.formats, &response.title);
        if include_adaptive {
            let mut more = options_for(&response.adaptive_formats, &response.title);
            all.append(&mut more);
        }
        if all.len() == 0 {
            Err(YouDlError::Unsupported(unsupported_message(&response.title)))
        } else {
            Ok(DownloadOptions(all))
        }
    }

    /// The number of options in the list.
    pub fn len(&self) -> (r: usize)
        ensures
            r == self.0@.len(),
    {
        self.0.len()
    }

    /// The title of the video the options belong to.
    pub fn get_title(&self) -> (r: &String)
        requires
            self.0@.len() > 0,
        ensures
            r@ == self.0@[0].title@,
    {
        &self.0[0].title
    }

    /// Removes and returns the chosen option; the remaining list keeps its
    /// order.
    pub fn remove_chosen(&mut self, index: usize) -> (r: DownloadOption)
        requires
            index < old(self).0@.len(),
        ensures
            r == old(self).0@[index as int],
            final(self).0@ == old(self).0@.remove(index as int),
    {
        self.0.remove(index)
    }
}

/// The derived file name is a function of title and mime type alone: two
/// builder passes over identical input derive the identical file name.
pub proof fn lemma_file_name_deterministic(
    o1: DownloadOption,
    o2: DownloadOption,
    f: StreamFormat,
    title: Seq<char>,
)
    requires
        option_matches(o1, f, title),
        option_matches(o2, f, title),
    ensures
        o1.file_name@ == o2.file_name@,
{
}

/// The whole option list is a function of the record and the policy alone:
/// two builder passes over identical input derive lists that agree, option
/// by option, in every field — the same identifiers, the same URLs, the
/// same ordering, the same file names.
pub proof fn lemma_build_deterministic(
    os1: Seq<DownloadOption>,
    os2: Seq<DownloadOption>,
    fs: Seq<StreamFormat>,
    title: Seq<char>,
)
    requires
        options_match(os1, fs, title),
        options_match(os2, fs, title),
    ensures
        os1.len() == os2.len(),
        forall|i: int|
            0 <= i < os1.len() ==> os1[i].itag == os2[i].itag && os1[i].label@ == os2[i].label@
                && os1[i].url@ == os2[i].url@ && os1[i].title@ == os2[i].title@
                && os1[i].file_name@ == os2[i].file_name@,
{
    assert forall|i: int|
        0 <= i < os1.len() implies os1[i].itag == os2[i].itag && os1[i].label@ == os2[i].label@
        && os1[i].url@ == os2[i].url@ && os1[i].title@ == os2[i].title@ && os1[i].file_name@
        == os2[i].file_name@ by {
        assert(option_matches(os1[i], fs[i], title));
        assert(option_matches(os2[i], fs[i], title));
    }
}

/// The format identifier is carried over unchanged, so when the candidate
/// streams bear pairwise distinct identifiers — as the host declares them —
/// the identifiers are unique within the option list.
pub proof fn lemma_unique_itags_preserved(
    os: Seq<DownloadOption>,
    fs: Seq<StreamFormat>,
    title: Seq<char>,
)
    requires
        options_match(os, fs, title),
        forall|i: int, j: int| 0 <= i < j < fs.len() ==> fs[i].itag != fs[j].itag,
    ensures
        forall|i: int, j: int| 0 <= i < j < os.len() ==> os[i].itag != os[j].itag,
{
    assert forall|i: int, j: int| 0 <= i < j < os.len() implies os[i].itag != os[j].itag by {
        assert(option_matches(os[i], fs[i], title));
        assert(option_matches(os[j], fs[j], title));
    }
}

/// When the extension itself holds no filesystem-illegal character (true of
/// well-formed mime types), the whole derived file name holds none, whatever
/// the title held.
pub proof fn lemma_file_name_clean(title: Seq<char>, mime: Seq<char>)
    requires
        forall|i: int|
            0 <= i < extension_of(mime).len() ==> !illegal_in_file_name(extension_of(mime)[i]),
    ensures
        forall|i: int|
            0 <= i < spec_file_name(title, mime).len() ==> !illegal_in_file_name(
                spec_file_name(title, mime)[i],
            ),
{
    reveal_strlit(".");
    lemma_sanitized_clean(title);
    assert forall|i: int| 0 <= i < spec_file_name(title, mime).len() implies !illegal_in_file_name(
        spec_file_name(title, mime)[i],
    ) by {
        let n = spec_file_name(title, mime);
        if i < sanitized(title).len() {
            assert(n[i] == sanitized(title)[i]);
        } else if i < sanitized(title).len() + 1 {
            assert(n[i] == '.');
        } else {
            assert(n[i] == extension_of(mime)[i - sanitized(title).len() - 1]);
        }
    }
}

} // verus!
