//! Serving the bundled editor assets over the `notypo://` scheme.

use vstd::prelude::*;
use vstd::string::*;
use crate::text::{chars_of, ends_with, has_suffix};

verus! {

/// The MIME type for a path, by its extension.
pub open spec fn spec_mime(path: Seq<char>) -> Seq<char> {
    if has_suffix(path, ".html"@) {
        "text/html; charset=utf-8"@
    } else if has_suffix(path, ".js"@) {
        "application/javascript; charset=utf-8"@
    } else if has_suffix(path, ".css"@) {
        "text/css; charset=utf-8"@
    } else if has_suffix(path, ".json"@) {
        "application/json; charset=utf-8"@
    } else if has_suffix(path, ".svg"@) {
        "image/svg+xml"@
    } else if has_suffix(path, ".png"@) {
        "image/png"@
    } else if has_suffix(path, ".jpg"@) || has_suffix(path, ".jpeg"@) {
        "image/jpeg"@
    } else if has_suffix(path, ".gif"@) {
        "image/gif"@
    } else if has_suffix(path, ".woff2"@) {
        "font/woff2"@
    } else if has_suffix(path, ".woff"@) {
        "font/woff"@
    } else if has_suffix(path, ".ttf"@) {
        "font/ttf"@
    } else {
        "application/octet-stream"@
    }
}

/// The MIME type for a path, by its extension.
pub fn mime_from_path(path: &str) -> (mime: &'static str)
    ensures
        mime@ == spec_mime(path@),
{
    if ends_with(path, ".html") {
        "text/html; charset=utf-8"
    } else if ends_with(path, ".js") {
        "application/javascript; charset=utf-8"
    } else if ends_with(path, ".css") {
        "text/css; charset=utf-8"
    } else if ends_with(path, ".json") {
        "application/json; charset=utf-8"
    } else if ends_with(path, ".svg") {
        "image/svg+xml"
    } else if ends_with(path, ".png") {
        "image/png"
    } else if ends_with(path, ".jpg") || ends_with(path, ".jpeg") {
        "image/jpeg"
    } else if ends_with(path, ".gif") {
        "image/gif"
    } else if ends_with(path, ".woff2") {
        "font/woff2"
    } else if ends_with(path, ".woff") {
        "font/woff"
    } else if ends_with(path, ".ttf") {
        "font/ttf"
    } else {
        "application/octet-stream"
    }
}

/// The MIME type of the answer to an asset request: by the path when the
/// asset was found, else plain text (the "not found" body).
pub fn asset_mime(path: &str, found: bool) -> (mime: &'static str)
    ensures
        mime@ == (if found { spec_mime(path@) } else { "text/plain; charset=utf-8"@ }),
{
    if found { mime_from_path(path) } else { "text/plain; charset=utf-8" }
}

/// `s` without the '/' characters it starts with.
pub open spec fn trim_leading_slashes(s: Seq<char>) -> Seq<char>
    decreases s.len(),
{
    if s.len() > 0 && s[0] == '/' {
        trim_leading_slashes(s.drop_first())
    } else {
        s
    }
}

/// The file behind a request path: the request path, with its leading '/'
/// characters taken off, under the assets folder.
pub fn asset_file_path(assets: &str, request_path: &str) -> (file: String)
    ensures
        file@ == assets@ + "/"@ + trim_leading_slashes(request_path@),
{
    let chars = chars_of(request_path);
    let mut start: usize = 0;
    assert(request_path@.skip(0) =~= request_path@);
    while start < chars.len() && chars[start] == '/'
        invariant
            chars@ == request_path@,
            start <= chars.len(),
            trim_leading_slashes(request_path@) == trim_leading_slashes(request_path@.skip(start as int)),
        decreases chars.len() - start,
    {
        assert(request_path@.skip(start as int).drop_first() =~= request_path@.skip(start + 1));
        start = start + 1;
    }
    let mut file = String::from_str(assets);
    file.append("/");
    let ghost prefix = file@;
    let mut i: usize = start;
    while i < chars.len()
        invariant
            chars@ == request_path@,
            start <= i <= chars.len(),
            file@ == prefix + request_path@.subrange(start as int, i as int),
        decreases chars.len() - i,
    {
        crate::text::push_char(&mut file, chars[i]);
        assert(request_path@.subrange(start as int, i + 1) =~= request_path@.subrange(start as int, i as int).push(chars@[i as int]));
        i = i + 1;
    }
    assert(request_path@.skip(start as int) =~= request_path@.subrange(start as int, chars.len() as int));
    file
}

/// The URL an asset response names: `notypo://app` and the request path.
pub fn asset_url(request_path: &str) -> (url: String)
    ensures
        url@ == "notypo://app"@ + request_path@,
{
    let mut url = String::from_str("notypo://app");
    url.append(request_path);
    url
}

/// Trimming takes off exactly the '/' characters a path starts with: what
/// is taken off is all '/', what is left is the rest of the path, and it does
/// not start with '/'.
pub proof fn lemma_trim_leading_slashes(s: Seq<char>)
    ensures
        trim_leading_slashes(s).len() <= s.len(),
        s.skip(s.len() - trim_leading_slashes(s).len()) == trim_leading_slashes(s),
        forall|i: int| 0 <= i < s.len() - trim_leading_slashes(s).len() ==> s[i] == '/',
        trim_leading_slashes(s).len() == 0 || trim_leading_slashes(s)[0] != '/',
    decreases s.len(),
{
    if s.len() > 0 && s[0] == '/' {
        lemma_trim_leading_slashes(s.drop_first());
        let t = trim_leading_slashes(s);
        assert(s.skip(s.len() - t.len()) =~= s.drop_first().skip(s.drop_first().len() - t.len()));
        assert forall|i: int| 0 <= i < s.len() - t.len() implies s[i] == '/' by {
            if i > 0 {
                assert(s[i] == s.drop_first()[i - 1]);
            }
        }
    } else {
        assert(s.skip(0) =~= s);
    }
}

/// The MIME type for one extension, whatever comes before it.
proof fn lemma_mime_html(stem: Seq<char>)
    ensures
        spec_mime(stem + ".html"@) == "text/html; charset=utf-8"@,
{
    reveal_strlit(".html");
    let s = stem + ".html"@;
    assert(s.subrange(s.len() - ".html"@.len(), s.len() as int) =~= ".html"@);
}

/// The MIME type for one extension, whatever comes before it.
proof fn lemma_mime_js(stem: Seq<char>)
    ensures
        spec_mime(stem + ".js"@) == "application/javascript; charset=utf-8"@,
{
    reveal_strlit(".js");
    let s = stem + ".js"@;
    reveal_strlit(".html");
    if ".html"@.len() <= s.len() {
        assert(s[s.len() - 1] == ".js"@[2]);
        assert(s.subrange(s.len() - ".html"@.len(), s.len() as int)[4] != ".html"@[4]);
    }
    assert(s.subrange(s.len() - ".js"@.len(), s.len() as int) =~= ".js"@);
}

/// The MIME type for one extension, whatever comes before it.
proof fn lemma_mime_css(stem: Seq<char>)
    ensures
        spec_mime(stem + ".css"@) == "text/css; charset=utf-8"@,
{
    reveal_strlit(".css");
    let s = stem + ".css"@;
    reveal_strlit(".html");
    if ".html"@.len() <= s.len() {
        assert(s[s.len() - 1] == ".css"@[3]);
        assert(s.subrange(s.len() - ".html"@.len(), s.len() as int)[4] != ".html"@[4]);
    }
    reveal_strlit(".js");
    if ".js"@.len() <= s.len() {
        assert(s[s.len() - 2] == ".css"@[2]);
        assert(s.subrange(s.len() - ".js"@.len(), s.len() as int)[1] != ".js"@[1]);
    }
    assert(s.subrange(s.len() - ".css"@.len(), s.len() as int) =~= ".css"@);
}

/// The MIME type for one extension, whatever comes before it.
proof fn lemma_mime_json(stem: Seq<char>)
    ensures
        spec_mime(stem + ".json"@) == "application/json; charset=utf-8"@,
{
    reveal_strlit(".json");
    let s = stem + ".json"@;
    reveal_strlit(".html");
    if ".html"@.len() <= s.len() {
        assert(s[s.len() - 1] == ".json"@[4]);
        assert(s.subrange(s.len() - ".html"@.len(), s.len() as int)[4] != ".html"@[4]);
    }
    reveal_strlit(".js");
    if ".js"@.len() <= s.len() {
        assert(s[s.len() - 1] == ".json"@[4]);
        assert(s.subrange(s.len() - ".js"@.len(), s.len() as int)[2] != ".js"@[2]);
    }
    reveal_strlit(".css");
    if ".css"@.len() <= s.len() {
        assert(s[s.len() - 1] == ".json"@[4]);
        assert(s.subrange(s.len() - ".css"@.len(), s.len() as int)[3] != ".css"@[3]);
    }
    assert(s.subrange(s.len() - ".json"@.len(), s.len() as int) =~= ".json"@);
}

/// The MIME type for one extension, whatever comes before it.
proof fn lemma_mime_svg(stem: Seq<char>)
    ensures
        spec_mime(stem + ".svg"@) == "image/svg+xml"@,
{
    reveal_strlit(".svg");
    let s = stem + ".svg"@;
    reveal_strlit(".html");
    if ".html"@.len() <= s.len() {
        assert(s[s.len() - 1] == ".svg"@[3]);
        assert(s.subrange(s.len() - ".html"@.len(), s.len() as int)[4] != ".html"@[4]);
    }
    reveal_strlit(".js");
    if ".js"@.len() <= s.len() {
        assert(s[s.len() - 1] == ".svg"@[3]);
        assert(s.subrange(s.len() - ".js"@.len(), s.len() as int)[2] != ".js"@[2]);
    }
    reveal_strlit(".css");
    if ".css"@.len() <= s.len() {
        assert(s[s.len() - 1] == ".svg"@[3]);
        assert(s.subrange(s.len() - ".css"@.len(), s.len() as int)[3] != ".css"@[3]);
    }
    reveal_strlit(".json");
    if ".json"@.len() <= s.len() {
        assert(s[s.len() - 1] == ".svg"@[3]);
        assert(s.subrange(s.len() - ".json"@.len(), s.len() as int)[4] != ".json"@[4]);
    }
    assert(s.subrange(s.len() - ".svg"@.len(), s.len() as int) =~= ".svg"@);
}

/// The MIME type for one extension, whatever comes before it.
proof fn lemma_mime_png(stem: Seq<char>)
    ensures
        spec_mime(stem + ".png"@) == "image/png"@,
{
    reveal_strlit(".png");
    let s = stem + ".png"@;
    reveal_strlit(".html");
    if ".html"@.len() <= s.len() {
        assert(s[s.len() - 1] == ".png"@[3]);
        assert(s.subrange(s.len() - ".html"@.len(), s.len() as int)[4] != ".html"@[4]);
    }
    reveal_strlit(".js");
    if ".js"@.len() <= s.len() {
        assert(s[s.len() - 1] == ".png"@[3]);
        assert(s.subrange(s.len() - ".js"@.len(), s.len() as int)[2] != ".js"@[2]);
    }
    reveal_strlit(".css");
    if ".css"@.len() <= s.len() {
        assert(s[s.len() - 1] == ".png"@[3]);
        assert(s.subrange(s.len() - ".css"@.len(), s.len() as int)[3] != ".css"@[3]);
    }
    reveal_strlit(".json");
    if ".json"@.len() <= s.len() {
        assert(s[s.len() - 1] == ".png"@[3]);
        assert(s.subrange(s.len() - ".json"@.len(), s.len() as int)[4] != ".json"@[4]);
    }
    reveal_strlit(".svg");
    if ".svg"@.len() <= s.len() {
        assert(s[s.len() - 2] == ".png"@[2]);
        assert(s.subrange(s.len() - ".svg"@.len(), s.len() as int)[2] != ".svg"@[2]);
    }
    assert(s.subrange(s.len() - ".png"@.len(), s.len() as int) =~= ".png"@);
}

/// The MIME type for one extension, whatever comes before it.
proof fn lemma_mime_jpg(stem: Seq<char>)
    ensures
        spec_mime(stem + ".jpg"@) == "image/jpeg"@,
{
    reveal_strlit(".jpg");
    let s = stem + ".jpg"@;
    reveal_strlit(".html");
    if ".html"@.len() <= s.len() {
        assert(s[s.len() - 1] == ".jpg"@[3]);
        assert(s.subrange(s.len() - ".html"@.len(), s.len() as int)[4] != ".html"@[4]);
    }
    reveal_strlit(".js");
    if ".js"@.len() <= s.len() {
        assert(s[s.len() - 1] == ".jpg"@[3]);
        assert(s.subrange(s.len() - ".js"@.len(), s.len() as int)[2] != ".js"@[2]);
    }
    reveal_strlit(".css");
    if ".css"@.len() <= s.len() {
        assert(s[s.len() - 1] == ".jpg"@[3]);
        assert(s.subrange(s.len() - ".css"@.len(), s.len() as int)[3] != ".css"@[3]);
    }
    reveal_strlit(".json");
    if ".json"@.len() <= s.len() {
        assert(s[s.len() - 1] == ".jpg"@[3]);
        assert(s.subrange(s.len() - ".json"@.len(), s.len() as int)[4] != ".json"@[4]);
    }
    reveal_strlit(".svg");
    if ".svg"@.len() <= s.len() {
        assert(s[s.len() - 2] == ".jpg"@[2]);
        assert(s.subrange(s.len() - ".svg"@.len(), s.len() as int)[2] != ".svg"@[2]);
    }
    reveal_strlit(".png");
    if ".png"@.len() <= s.len() {
        assert(s[s.len() - 2] == ".jpg"@[2]);
        assert(s.subrange(s.len() - ".png"@.len(), s.len() as int)[2] != ".png"@[2]);
    }
    assert(s.subrange(s.len() - ".jpg"@.len(), s.len() as int) =~= ".jpg"@);
}

/// The MIME type for one extension, whatever comes before it.
proof fn lemma_mime_jpeg(stem: Seq<char>)
    ensures
        spec_mime(stem + ".jpeg"@) == "image/jpeg"@,
{
    reveal_strlit(".jpeg");
    let s = stem + ".jpeg"@;
    reveal_strlit(".html");
    if ".html"@.len() <= s.len() {
        assert(s[s.len() - 1] == ".jpeg"@[4]);
        assert(s.subrange(s.len() - ".html"@.len(), s.len() as int)[4] != ".html"@[4]);
    }
    reveal_strlit(".js");
    if ".js"@.len() <= s.len() {
        assert(s[s.len() - 1] == ".jpeg"@[4]);
        assert(s.subrange(s.len() - ".js"@.len(), s.len() as int)[2] != ".js"@[2]);
    }
    reveal_strlit(".css");
    if ".css"@.len() <= s.len() {
        assert(s[s.len() - 1] == ".jpeg"@[4]);
        assert(s.subrange(s.len() - ".css"@.len(), s.len() as int)[3] != ".css"@[3]);
    }
    reveal_strlit(".json");
    if ".json"@.len() <= s.len() {
        assert(s[s.len() - 1] == ".jpeg"@[4]);
        assert(s.subrange(s.len() - ".json"@.len(), s.len() as int)[4] != ".json"@[4]);
    }
    reveal_strlit(".svg");
    if ".svg"@.len() <= s.len() {
        assert(s[s.len() - 2] == ".jpeg"@[3]);
        assert(s.subrange(s.len() - ".svg"@.len(), s.len() as int)[2] != ".svg"@[2]);
    }
    reveal_strlit(".png");
    if ".png"@.len() <= s.len() {
        assert(s[s.len() - 2] == ".jpeg"@[3]);
        assert(s.subrange(s.len() - ".png"@.len(), s.len() as int)[2] != ".png"@[2]);
    }
    reveal_strlit(".jpg");
    if ".jpg"@.len() <= s.len() {
        assert(s[s.len() - 2] == ".jpeg"@[3]);
        assert(s.subrange(s.len() - ".jpg"@.len(), s.len() as int)[2] != ".jpg"@[2]);
    }
    assert(s.subrange(s.len() - ".jpeg"@.len(), s.len() as int) =~= ".jpeg"@);
}

/// The MIME type for one extension, whatever comes before it.
proof fn lemma_mime_gif(stem: Seq<char>)
    ensures
        spec_mime(stem + ".gif"@) == "image/gif"@,
{
    reveal_strlit(".gif");
    let s = stem + ".gif"@;
    reveal_strlit(".html");
    if ".html"@.len() <= s.len() {
        assert(s[s.len() - 1] == ".gif"@[3]);
        assert(s.subrange(s.len() - ".html"@.len(), s.len() as int)[4] != ".html"@[4]);
    }
    reveal_strlit(".js");
    if ".js"@.len() <= s.len() {
        assert(s[s.len() - 1] == ".gif"@[3]);
        assert(s.subrange(s.len() - ".js"@.len(), s.len() as int)[2] != ".js"@[2]);
    }
    reveal_strlit(".css");
    if ".css"@.len() <= s.len() {
        assert(s[s.len() - 1] == ".gif"@[3]);
        assert(s.subrange(s.len() - ".css"@.len(), s.len() as int)[3] != ".css"@[3]);
    }
    reveal_strlit(".json");
    if ".json"@.len() <= s.len() {
        assert(s[s.len() - 1] == ".gif"@[3]);
        assert(s.subrange(s.len() - ".json"@.len(), s.len() as int)[4] != ".json"@[4]);
    }
    reveal_strlit(".svg");
    if ".svg"@.len() <= s.len() {
        assert(s[s.len() - 1] == ".gif"@[3]);
        assert(s.subrange(s.len() - ".svg"@.len(), s.len() as int)[3] != ".svg"@[3]);
    }
    reveal_strlit(".png");
    if ".png"@.len() <= s.len() {
        assert(s[s.len() - 1] == ".gif"@[3]);
        assert(s.subrange(s.len() - ".png"@.len(), s.len() as int)[3] != ".png"@[3]);
    }
    reveal_strlit(".jpg");
    if ".jpg"@.len() <= s.len() {
        assert(s[s.len() - 1] == ".gif"@[3]);
        assert(s.subrange(s.len() - ".jpg"@.len(), s.len() as int)[3] != ".jpg"@[3]);
    }
    reveal_strlit(".jpeg");
    if ".jpeg"@.len() <= s.len() {
        assert(s[s.len() - 1] == ".gif"@[3]);
        assert(s.subrange(s.len() - ".jpeg"@.len(), s.len() as int)[4] != ".jpeg"@[4]);
    }
    assert(s.subrange(s.len() - ".gif"@.len(), s.len() as int) =~= ".gif"@);
}

/// The MIME type for one extension, whatever comes before it.
proof fn lemma_mime_woff2(stem: Seq<char>)
    ensures
        spec_mime(stem + ".woff2"@) == "font/woff2"@,
{
    reveal_strlit(".woff2");
    let s = stem + ".woff2"@;
    reveal_strlit(".html");
    if ".html"@.len() <= s.len() {
        assert(s[s.len() - 1] == ".woff2"@[5]);
        assert(s.subrange(s.len() - ".html"@.len(), s.len() as int)[4] != ".html"@[4]);
    }
    reveal_strlit(".js");
    if ".js"@.len() <= s.len() {
        assert(s[s.len() - 1] == ".woff2"@[5]);
        assert(s.subrange(s.len() - ".js"@.len(), s.len() as int)[2] != ".js"@[2]);
    }
    reveal_strlit(".css");
    if ".css"@.len() <= s.len() {
        assert(s[s.len() - 1] == ".woff2"@[5]);
        assert(s.subrange(s.len() - ".css"@.len(), s.len() as int)[3] != ".css"@[3]);
    }
    reveal_strlit(".json");
    if ".json"@.len() <= s.len() {
        assert(s[s.len() - 1] == ".woff2"@[5]);
        assert(s.subrange(s.len() - ".json"@.len(), s.len() as int)[4] != ".json"@[4]);
    }
    reveal_strlit(".svg");
    if ".svg"@.len() <= s.len() {
        assert(s[s.len() - 1] == ".woff2"@[5]);
        assert(s.subrange(s.len() - ".svg"@.len(), s.len() as int)[3] != ".svg"@[3]);
    }
    reveal_strlit(".png");
    if ".png"@.len() <= s.len() {
        assert(s[s.len() - 1] == ".woff2"@[5]);
        assert(s.subrange(s.len() - ".png"@.len(), s.len() as int)[3] != ".png"@[3]);
    }
    reveal_strlit(".jpg");
    if ".jpg"@.len() <= s.len() {
        assert(s[s.len() - 1] == ".woff2"@[5]);
        assert(s.subrange(s.len() - ".jpg"@.len(), s.len() as int)[3] != ".jpg"@[3]);
    }
    reveal_strlit(".jpeg");
    if ".jpeg"@.len() <= s.len() {
        assert(s[s.len() - 1] == ".woff2"@[5]);
        assert(s.subrange(s.len() - ".jpeg"@.len(), s.len() as int)[4] != ".jpeg"@[4]);
    }
    reveal_strlit(".gif");
    if ".gif"@.len() <= s.len() {
        assert(s[s.len() - 1] == ".woff2"@[5]);
        assert(s.subrange(s.len() - ".gif"@.len(), s.len() as int)[3] != ".gif"@[3]);
    }
    assert(s.subrange(s.len() - ".woff2"@.len(), s.len() as int) =~= ".woff2"@);
}

/// The MIME type for one extension, whatever comes before it.
proof fn lemma_mime_woff(stem: Seq<char>)
    ensures
        spec_mime(stem + ".woff"@) == "font/woff"@,
{
    reveal_strlit(".woff");
    let s = stem + ".woff"@;
    reveal_strlit(".html");
    if ".html"@.len() <= s.len() {
        assert(s[s.len() - 1] == ".woff"@[4]);
        assert(s.subrange(s.len() - ".html"@.len(), s.len() as int)[4] != ".html"@[4]);
    }
    reveal_strlit(".js");
    if ".js"@.len() <= s.len() {
        assert(s[s.len() - 1] == ".woff"@[4]);
        assert(s.subrange(s.len() - ".js"@.len(), s.len() as int)[2] != ".js"@[2]);
    }
    reveal_strlit(".css");
    if ".css"@.len() <= s.len() {
        assert(s[s.len() - 1] == ".woff"@[4]);
        assert(s.subrange(s.len() - ".css"@.len(), s.len() as int)[3] != ".css"@[3]);
    }
    reveal_strlit(".json");
    if ".json"@.len() <= s.len() {
        assert(s[s.len() - 1] == ".woff"@[4]);
        assert(s.subrange(s.len() - ".json"@.len(), s.len() as int)[4] != ".json"@[4]);
    }
    reveal_strlit(".svg");
    if ".svg"@.len() <= s.len() {
        assert(s[s.len() - 1] == ".woff"@[4]);
        assert(s.subrange(s.len() - ".svg"@.len(), s.len() as int)[3] != ".svg"@[3]);
    }
    reveal_strlit(".png");
    if ".png"@.len() <= s.len() {
        assert(s[s.len() - 1] == ".woff"@[4]);
        assert(s.subrange(s.len() - ".png"@.len(), s.len() as int)[3] != ".png"@[3]);
    }
    reveal_strlit(".jpg");
    if ".jpg"@.len() <= s.len() {
        assert(s[s.len() - 1] == ".woff"@[4]);
        assert(s.subrange(s.len() - ".jpg"@.len(), s.len() as int)[3] != ".jpg"@[3]);
    }
    reveal_strlit(".jpeg");
    if ".jpeg"@.len() <= s.len() {
        assert(s[s.len() - 1] == ".woff"@[4]);
        assert(s.subrange(s.len() - ".jpeg"@.len(), s.len() as int)[4] != ".jpeg"@[4]);
    }
    reveal_strlit(".gif");
    if ".gif"@.len() <= s.len() {
        assert(s[s.len() - 2] == ".woff"@[3]);
        assert(s.subrange(s.len() - ".gif"@.len(), s.len() as int)[2] != ".gif"@[2]);
    }
    reveal_strlit(".woff2");
    if ".woff2"@.len() <= s.len() {
        assert(s[s.len() - 1] == ".woff"@[4]);
        assert(s.subrange(s.len() - ".woff2"@.len(), s.len() as int)[5] != ".woff2"@[5]);
    }
    assert(s.subrange(s.len() - ".woff"@.len(), s.len() as int) =~= ".woff"@);
}

/// The MIME type for one extension, whatever comes before it.
proof fn lemma_mime_ttf(stem: Seq<char>)
    ensures
        spec_mime(stem + ".ttf"@) == "font/ttf"@,
{
    reveal_strlit(".ttf");
    let s = stem + ".ttf"@;
    reveal_strlit(".html");
    if ".html"@.len() <= s.len() {
        assert(s[s.len() - 1] == ".ttf"@[3]);
        assert(s.subrange(s.len() - ".html"@.len(), s.len() as int)[4] != ".html"@[4]);
    }
    reveal_strlit(".js");
    if ".js"@.len() <= s.len() {
        assert(s[s.len() - 1] == ".ttf"@[3]);
        assert(s.subrange(s.len() - ".js"@.len(), s.len() as int)[2] != ".js"@[2]);
    }
    reveal_strlit(".css");
    if ".css"@.len() <= s.len() {
        assert(s[s.len() - 1] == ".ttf"@[3]);
        assert(s.subrange(s.len() - ".css"@.len(), s.len() as int)[3] != ".css"@[3]);
    }
    reveal_strlit(".json");
    if ".json"@.len() <= s.len() {
        assert(s[s.len() - 1] == ".ttf"@[3]);
        assert(s.subrange(s.len() - ".json"@.len(), s.len() as int)[4] != ".json"@[4]);
    }
    reveal_strlit(".svg");
    if ".svg"@.len() <= s.len() {
        assert(s[s.len() - 1] == ".ttf"@[3]);
        assert(s.subrange(s.len() - ".svg"@.len(), s.len() as int)[3] != ".svg"@[3]);
    }
    reveal_strlit(".png");
    if ".png"@.len() <= s.len() {
        assert(s[s.len() - 1] == ".ttf"@[3]);
        assert(s.subrange(s.len() - ".png"@.len(), s.len() as int)[3] != ".png"@[3]);
    }
    reveal_strlit(".jpg");
    if ".jpg"@.len() <= s.len() {
        assert(s[s.len() - 1] == ".ttf"@[3]);
        assert(s.subrange(s.len() - ".jpg"@.len(), s.len() as int)[3] != ".jpg"@[3]);
    }
    reveal_strlit(".jpeg");
    if ".jpeg"@.len() <= s.len() {
        assert(s[s.len() - 1] == ".ttf"@[3]);
        assert(s.subrange(s.len() - ".jpeg"@.len(), s.len() as int)[4] != ".jpeg"@[4]);
    }
    reveal_strlit(".gif");
    if ".gif"@.len() <= s.len() {
        assert(s[s.len() - 2] == ".ttf"@[2]);
        assert(s.subrange(s.len() - ".gif"@.len(), s.len() as int)[2] != ".gif"@[2]);
    }
    reveal_strlit(".woff2");
    if ".woff2"@.len() <= s.len() {
        assert(s[s.len() - 1] == ".ttf"@[3]);
        assert(s.subrange(s.len() - ".woff2"@.len(), s.len() as int)[5] != ".woff2"@[5]);
    }
    reveal_strlit(".woff");
    if ".woff"@.len() <= s.len() {
        assert(s[s.len() - 2] == ".ttf"@[2]);
        assert(s.subrange(s.len() - ".woff"@.len(), s.len() as int)[3] != ".woff"@[3]);
    }
    assert(s.subrange(s.len() - ".ttf"@.len(), s.len() as int) =~= ".ttf"@);
}

/// Every asset's MIME type follows from its extension, whatever comes
/// before it: HTML, JavaScript, CSS and JSON as UTF-8 text, SVG, PNG, JPEG
/// (".jpg" or ".jpeg") and GIF images, and WOFF2, WOFF and TrueType fonts.
pub proof fn lemma_mime_by_extension(stem: Seq<char>)
    ensures
        spec_mime(stem + ".html"@) == "text/html; charset=utf-8"@,
        spec_mime(stem + ".js"@) == "application/javascript; charset=utf-8"@,
        spec_mime(stem + ".css"@) == "text/css; charset=utf-8"@,
        spec_mime(stem + ".json"@) == "application/json; charset=utf-8"@,
        spec_mime(stem + ".svg"@) == "image/svg+xml"@,
        spec_mime(stem + ".png"@) == "image/png"@,
        spec_mime(stem + ".jpg"@) == "image/jpeg"@,
        spec_mime(stem + ".jpeg"@) == "image/jpeg"@,
        spec_mime(stem + ".gif"@) == "image/gif"@,
        spec_mime(stem + ".woff2"@) == "font/woff2"@,
        spec_mime(stem + ".woff"@) == "font/woff"@,
        spec_mime(stem + ".ttf"@) == "font/ttf"@,
{
    lemma_mime_html(stem);
    lemma_mime_js(stem);
    lemma_mime_css(stem);
    lemma_mime_json(stem);
    lemma_mime_svg(stem);
    lemma_mime_png(stem);
    lemma_mime_jpg(stem);
    lemma_mime_jpeg(stem);
    lemma_mime_gif(stem);
    lemma_mime_woff2(stem);
    lemma_mime_woff(stem);
    lemma_mime_ttf(stem);
}

} // verus!
