//! The front end's files, served from the management application's
//! embedded table, with the single-page fallback to `index.html`.
use vstd::prelude::*;

verus! {

/// The embedded front-end files: (path, contents).
#[derive(Debug, Clone)]
pub struct Assets {
    pub files: Vec<(String, Vec<u8>)>,
}

/// `s` without its leading `c`s (`trim_start_matches`).
pub open spec fn strip_leading(s: Seq<char>, c: char) -> Seq<char>
    decreases s.len(),
{
    if s.len() > 0 && s[0] == c {
        strip_leading(s.drop_first(), c)
    } else {
        s
    }
}

/// The file a request path names: without leading slashes, `index.html`
/// for the root.
pub open spec fn asset_path(uri_path: Seq<char>) -> Seq<char> {
    let p = strip_leading(uri_path, '/');
    if p.len() == 0 {
        "index.html"@
    } else {
        p
    }
}

proof fn lemma_strip_leading_skip(s: Seq<char>, c: char, i: int)
    requires
        0 <= i <= s.len(),
        forall|j: int| 0 <= j < i ==> s[j] == c,
    ensures
        strip_leading(s, c) == strip_leading(s.skip(i), c),
    decreases i,
{
    if i > 0 {
        assert(s[0] == c);
        lemma_strip_leading_skip(s.drop_first(), c, i - 1);
        assert(s.drop_first().skip(i - 1) =~= s.skip(i));
    } else {
        assert(s.skip(0) =~= s);
    }
}

/// The file a request path names.
pub fn frontend_path(uri_path: &str) -> (p: String)
    ensures
        p@ == asset_path(uri_path@),
{
    let v = crate::text::chars_of(uri_path);
    let mut i: usize = 0;
    while i < v.len() && v[i] == '/'
        invariant
            i <= v.len(),
            v@ == uri_path@,
            forall|j: int| 0 <= j < i ==> v@[j] == '/',
        decreases v.len() - i,
    {
        i = i + 1;
    }
    proof {
        lemma_strip_leading_skip(v@, '/', i as int);
        assert(v@.subrange(i as int, v.len() as int) =~= v@.skip(i as int));
    }
    let rest = crate::text::slice_string(&v, i, v.len());
    if rest.as_str().is_empty() {
        String::from_str("index.html")
    } else {
        rest
    }
}

/// The contents stored under `path`: the first entry with that path.
pub open spec fn stored_file(files: Seq<(String, Vec<u8>)>, path: Seq<char>) -> Option<Seq<u8>>
    decreases files.len(),
{
    if files.len() == 0 {
        None
    } else if files[0].0@ == path {
        Some(files[0].1@)
    } else {
        stored_file(files.drop_first(), path)
    }
}

impl Assets {
    /// The contents of the embedded file `path`, if there is one.
    pub fn get(&self, path: &str) -> (r: Option<Vec<u8>>)
        ensures
            match r {
                Some(d) => stored_file(self.files@, path@) == Some(d@),
                None => stored_file(self.files@, path@) is None,
            },
    {
        let mut i: usize = 0;
        assert(self.files@.skip(0) =~= self.files@);
        while i < self.files.len()
            invariant
                i <= self.files.len(),
                stored_file(self.files@, path@) == stored_file(self.files@.skip(i as int), path@),
            decreases self.files.len() - i,
        {
            proof {
                assert(self.files@.skip(i as int)[0] == self.files@[i as int]);
                assert(self.files@.skip(i as int).drop_first() =~= self.files@.skip(i + 1));
            }
            if crate::text::same_text(self.files[i].0.as_str(), path) {
                return Some(self.files[i].1.clone());
            }
            i = i + 1;
        }
        proof {
            assert(self.files@.skip(i as int).len() == 0);
        }
        None
    }
}

/// `mime_guess::from_path(path).first_or_octet_stream()`: the MIME type
/// guessed from the path's extension.
pub uninterp spec fn guessed_mime(path: Seq<char>) -> Seq<char>;

/// The MIME type for a file path (by its extension; octet-stream when unknown).
#[verifier::external_body]
fn mime_for(path: &str) -> (m: String)
    ensures
        m@ == guessed_mime(path@),
{
    mime_guess::from_path(path).first_or_octet_stream().as_ref().to_string()
}

/// What a front-end request is answered with.
#[derive(Debug, Clone, PartialEq, Eq)]
pub enum FrontendReply {
    /// The file, with its MIME type.
    File { mime: String, data: Vec<u8> },
    /// The single-page fallback: `index.html`, served as HTML.
    IndexHtml(Vec<u8>),
    /// 404 "Not Found".
    NotFound,
}

/// The reply for a request path: the named file, else `index.html` for the
/// front end's own routing, else 404.
pub fn frontend_reply(assets: &Assets, uri_path: &str) -> (r: FrontendReply)
    ensures
        ({
            let p = asset_path(uri_path@);
            match stored_file(assets.files@, p) {
                Some(d) => r matches FrontendReply::File { mime, data } && data@ == d && mime@ == guessed_mime(p),
                None => match stored_file(assets.files@, "index.html"@) {
                    Some(d) => r matches FrontendReply::IndexHtml(data) && data@ == d,
                    None => r == FrontendReply::NotFound,
                },
            }
        }),
{
    let path = frontend_path(uri_path);
    match assets.get(path.as_str()) {
        Some(data) => FrontendReply::File { mime: mime_for(path.as_str()), data },
        None => match assets.get("index.html") {
            Some(data) => FrontendReply::IndexHtml(data),
            None => FrontendReply::NotFound,
        },
    }
}

} // verus!
