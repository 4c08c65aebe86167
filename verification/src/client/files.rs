//! Files: their MIME types, and the record of local files uploaded.
use vstd::prelude::*;
use crate::text::{is_blank, lines_spec, opt_view, owned, split_lines, str_eq, trim_spec};
use crate::time::{days_since_epoch, iso8601_from_unix_seconds, iso8601_text, valid_date};
use super::responses::FileMetadata;

verus! {

/// The extension of the file name of a path, as `Path::extension` gives it.
pub uninterp spec fn path_extension(path: Seq<char>) -> Option<Seq<char>>;

/// The lower-case form of a text, as `str::to_lowercase` gives it.
pub uninterp spec fn lowercase(s: Seq<char>) -> Seq<char>;

/// The extension of the file name of `path` (`std::path::Path::extension`): none
/// without a file name, without a `.` in it, or with a `.` only at its start.
#[verifier::external_body]
fn extension_of(path: &str) -> (r: Option<String>)
    ensures
        opt_view(r) == path_extension(path@),
{
    std::path::Path::new(path).extension().and_then(|e| e.to_str()).map(|e| e.to_string())
}

/// The lower-case form of `s` (`str::to_lowercase`), by the Unicode mapping of
/// lower case.
#[verifier::external_body]
fn to_lowercase(s: &str) -> (r: String)
    ensures
        r@ == lowercase(s@),
{
    s.to_lowercase()
}

/// The MIME type of a lower-case file extension; `application/octet-stream` for
/// one not in the table.
pub open spec fn mime_for_extension(ext: Seq<char>) -> Seq<char> {
    if ext == "mp3"@ { "audio/mpeg"@ }
    else if ext == "wav"@ { "audio/wav"@ }
    else if ext == "aac"@ { "audio/aac"@ }
    else if ext == "ogg"@ { "audio/ogg"@ }
    else if ext == "flac"@ { "audio/flac"@ }
    else if ext == "m4a"@ { "audio/mp4"@ }
    else if ext == "weba"@ { "audio/webm"@ }
    else if ext == "mp4"@ { "video/mp4"@ }
    else if ext == "mpeg"@ || ext == "mpg"@ { "video/mpeg"@ }
    else if ext == "mov"@ { "video/quicktime"@ }
    else if ext == "avi"@ { "video/x-msvideo"@ }
    else if ext == "webm"@ { "video/webm"@ }
    else if ext == "mkv"@ { "video/x-matroska"@ }
    else if ext == "flv"@ { "video/x-flv"@ }
    else if ext == "wmv"@ { "video/x-ms-wmv"@ }
    else if ext == "3gp"@ { "video/3gpp"@ }
    else if ext == "jpg"@ || ext == "jpeg"@ { "image/jpeg"@ }
    else if ext == "png"@ { "image/png"@ }
    else if ext == "gif"@ { "image/gif"@ }
    else if ext == "webp"@ { "image/webp"@ }
    else if ext == "heic"@ || ext == "heif"@ { "image/heic"@ }
    else if ext == "bmp"@ { "image/bmp"@ }
    else if ext == "svg"@ { "image/svg+xml"@ }
    else if ext == "ico"@ { "image/x-icon"@ }
    else if ext == "pdf"@ { "application/pdf"@ }
    else if ext == "txt"@ { "text/plain"@ }
    else if ext == "html"@ || ext == "htm"@ { "text/html"@ }
    else if ext == "css"@ { "text/css"@ }
    else if ext == "js"@ { "text/javascript"@ }
    else if ext == "json"@ { "application/json"@ }
    else if ext == "xml"@ { "application/xml"@ }
    else if ext == "md"@ { "text/markdown"@ }
    else if ext == "csv"@ { "text/csv"@ }
    else if ext == "py"@ { "text/x-python"@ }
    else if ext == "rs"@ { "text/x-rust"@ }
    else if ext == "go"@ { "text/x-go"@ }
    else if ext == "java"@ { "text/x-java"@ }
    else if ext == "c"@ { "text/x-c"@ }
    else if ext == "cpp"@ || ext == "cc"@ || ext == "cxx"@ { "text/x-c++"@ }
    else if ext == "h"@ || ext == "hpp"@ { "text/x-c"@ }
    else if ext == "ts"@ { "text/typescript"@ }
    else if ext == "rb"@ { "text/x-ruby"@ }
    else if ext == "php"@ { "text/x-php"@ }
    else if ext == "swift"@ { "text/x-swift"@ }
    else if ext == "kt"@ { "text/x-kotlin"@ }
    else { "application/octet-stream"@ }
}

/// The file extensions that have a MIME type of their own, each with that type.
pub open spec fn mime_table() -> Seq<(Seq<char>, Seq<char>)> {
    seq![
        ("mp3"@, "audio/mpeg"@),
        ("wav"@, "audio/wav"@),
        ("aac"@, "audio/aac"@),
        ("ogg"@, "audio/ogg"@),
        ("flac"@, "audio/flac"@),
        ("m4a"@, "audio/mp4"@),
        ("weba"@, "audio/webm"@),
        ("mp4"@, "video/mp4"@),
        ("mpeg"@, "video/mpeg"@),
        ("mpg"@, "video/mpeg"@),
        ("mov"@, "video/quicktime"@),
        ("avi"@, "video/x-msvideo"@),
        ("webm"@, "video/webm"@),
        ("mkv"@, "video/x-matroska"@),
        ("flv"@, "video/x-flv"@),
        ("wmv"@, "video/x-ms-wmv"@),
        ("3gp"@, "video/3gpp"@),
        ("jpg"@, "image/jpeg"@),
        ("jpeg"@, "image/jpeg"@),
        ("png"@, "image/png"@),
        ("gif"@, "image/gif"@),
        ("webp"@, "image/webp"@),
        ("heic"@, "image/heic"@),
        ("heif"@, "image/heic"@),
        ("bmp"@, "image/bmp"@),
        ("svg"@, "image/svg+xml"@),
        ("ico"@, "image/x-icon"@),
        ("pdf"@, "application/pdf"@),
        ("txt"@, "text/plain"@),
        ("html"@, "text/html"@),
        ("htm"@, "text/html"@),
        ("css"@, "text/css"@),
        ("js"@, "text/javascript"@),
        ("json"@, "application/json"@),
        ("xml"@, "application/xml"@),
        ("md"@, "text/markdown"@),
        ("csv"@, "text/csv"@),
        ("py"@, "text/x-python"@),
        ("rs"@, "text/x-rust"@),
        ("go"@, "text/x-go"@),
        ("java"@, "text/x-java"@),
        ("c"@, "text/x-c"@),
        ("cpp"@, "text/x-c++"@),
        ("cc"@, "text/x-c++"@),
        ("cxx"@, "text/x-c++"@),
        ("h"@, "text/x-c"@),
        ("hpp"@, "text/x-c"@),
        ("ts"@, "text/typescript"@),
        ("rb"@, "text/x-ruby"@),
        ("php"@, "text/x-php"@),
        ("swift"@, "text/x-swift"@),
        ("kt"@, "text/x-kotlin"@),
    ]
}

/// Each extension of the table gives its MIME type, and an extension that is none
/// of them gives `application/octet-stream`.
pub proof fn lemma_mime_table(ext: Seq<char>)
    ensures
        forall|i: int| 0 <= i < mime_table().len() ==> #[trigger] mime_for_extension(mime_table()[i].0)
            == mime_table()[i].1,
        (forall|i: int| 0 <= i < mime_table().len() ==> #[trigger] mime_table()[i].0 != ext)
            ==> mime_for_extension(ext) == "application/octet-stream"@,
{
    reveal_strlit("mp3");
    reveal_strlit("wav");
    reveal_strlit("aac");
    reveal_strlit("ogg");
    reveal_strlit("flac");
    reveal_strlit("m4a");
    reveal_strlit("weba");
    reveal_strlit("mp4");
    reveal_strlit("mpeg");
    reveal_strlit("mpg");
    reveal_strlit("mov");
    reveal_strlit("avi");
    reveal_strlit("webm");
    reveal_strlit("mkv");
    reveal_strlit("flv");
    reveal_strlit("wmv");
    reveal_strlit("3gp");
    reveal_strlit("jpg");
    reveal_strlit("jpeg");
    reveal_strlit("png");
    reveal_strlit("gif");
    reveal_strlit("webp");
    reveal_strlit("heic");
    reveal_strlit("heif");
    reveal_strlit("bmp");
    reveal_strlit("svg");
    reveal_strlit("ico");
    reveal_strlit("pdf");
    reveal_strlit("txt");
    reveal_strlit("html");
    reveal_strlit("htm");
    reveal_strlit("css");
    reveal_strlit("js");
    reveal_strlit("json");
    reveal_strlit("xml");
    reveal_strlit("md");
    reveal_strlit("csv");
    reveal_strlit("py");
    reveal_strlit("rs");
    reveal_strlit("go");
    reveal_strlit("java");
    reveal_strlit("c");
    reveal_strlit("cpp");
    reveal_strlit("cc");
    reveal_strlit("cxx");
    reveal_strlit("h");
    reveal_strlit("hpp");
    reveal_strlit("ts");
    reveal_strlit("rb");
    reveal_strlit("php");
    reveal_strlit("swift");
    reveal_strlit("kt");
    let t = mime_table();
    assert("mp3"@.len() == 3 && "mp3"@[0] == 'm' && "mp3"@[1] == 'p' && "mp3"@[2] == '3');
    assert("wav"@.len() == 3 && "wav"@[0] == 'w' && "wav"@[1] == 'a' && "wav"@[2] == 'v');
    assert("aac"@.len() == 3 && "aac"@[0] == 'a' && "aac"@[1] == 'a' && "aac"@[2] == 'c');
    assert("ogg"@.len() == 3 && "ogg"@[0] == 'o' && "ogg"@[1] == 'g' && "ogg"@[2] == 'g');
    assert("flac"@.len() == 4 && "flac"@[0] == 'f' && "flac"@[1] == 'l' && "flac"@[2] == 'a' && "flac"@[3] == 'c');
    assert("m4a"@.len() == 3 && "m4a"@[0] == 'm' && "m4a"@[1] == '4' && "m4a"@[2] == 'a');
    assert("weba"@.len() == 4 && "weba"@[0] == 'w' && "weba"@[1] == 'e' && "weba"@[2] == 'b' && "weba"@[3] == 'a');
    assert("mp4"@.len() == 3 && "mp4"@[0] == 'm' && "mp4"@[1] == 'p' && "mp4"@[2] == '4');
    assert("mpeg"@.len() == 4 && "mpeg"@[0] == 'm' && "mpeg"@[1] == 'p' && "mpeg"@[2] == 'e' && "mpeg"@[3] == 'g');
    assert("mpg"@.len() == 3 && "mpg"@[0] == 'm' && "mpg"@[1] == 'p' && "mpg"@[2] == 'g');
    assert("mov"@.len() == 3 && "mov"@[0] == 'm' && "mov"@[1] == 'o' && "mov"@[2] == 'v');
    assert("avi"@.len() == 3 && "avi"@[0] == 'a' && "avi"@[1] == 'v' && "avi"@[2] == 'i');
    assert("webm"@.len() == 4 && "webm"@[0] == 'w' && "webm"@[1] == 'e' && "webm"@[2] == 'b' && "webm"@[3] == 'm');
    assert("mkv"@.len() == 3 && "mkv"@[0] == 'm' && "mkv"@[1] == 'k' && "mkv"@[2] == 'v');
    assert("flv"@.len() == 3 && "flv"@[0] == 'f' && "flv"@[1] == 'l' && "flv"@[2] == 'v');
    assert("wmv"@.len() == 3 && "wmv"@[0] == 'w' && "wmv"@[1] == 'm' && "wmv"@[2] == 'v');
    assert("3gp"@.len() == 3 && "3gp"@[0] == '3' && "3gp"@[1] == 'g' && "3gp"@[2] == 'p');
    assert("jpg"@.len() == 3 && "jpg"@[0] == 'j' && "jpg"@[1] == 'p' && "jpg"@[2] == 'g');
    assert("jpeg"@.len() == 4 && "jpeg"@[0] == 'j' && "jpeg"@[1] == 'p' && "jpeg"@[2] == 'e' && "jpeg"@[3] == 'g');
    assert("png"@.len() == 3 && "png"@[0] == 'p' && "png"@[1] == 'n' && "png"@[2] == 'g');
    assert("gif"@.len() == 3 && "gif"@[0] == 'g' && "gif"@[1] == 'i' && "gif"@[2] == 'f');
    assert("webp"@.len() == 4 && "webp"@[0] == 'w' && "webp"@[1] == 'e' && "webp"@[2] == 'b' && "webp"@[3] == 'p');
    assert("heic"@.len() == 4 && "heic"@[0] == 'h' && "heic"@[1] == 'e' && "heic"@[2] == 'i' && "heic"@[3] == 'c');
    assert("heif"@.len() == 4 && "heif"@[0] == 'h' && "heif"@[1] == 'e' && "heif"@[2] == 'i' && "heif"@[3] == 'f');
    assert("bmp"@.len() == 3 && "bmp"@[0] == 'b' && "bmp"@[1] == 'm' && "bmp"@[2] == 'p');
    assert("svg"@.len() == 3 && "svg"@[0] == 's' && "svg"@[1] == 'v' && "svg"@[2] == 'g');
    assert("ico"@.len() == 3 && "ico"@[0] == 'i' && "ico"@[1] == 'c' && "ico"@[2] == 'o');
    assert("pdf"@.len() == 3 && "pdf"@[0] == 'p' && "pdf"@[1] == 'd' && "pdf"@[2] == 'f');
    assert("txt"@.len() == 3 && "txt"@[0] == 't' && "txt"@[1] == 'x' && "txt"@[2] == 't');
    assert("html"@.len() == 4 && "html"@[0] == 'h' && "html"@[1] == 't' && "html"@[2] == 'm' && "html"@[3] == 'l');
    assert("htm"@.len() == 3 && "htm"@[0] == 'h' && "htm"@[1] == 't' && "htm"@[2] == 'm');
    assert("css"@.len() == 3 && "css"@[0] == 'c' && "css"@[1] == 's' && "css"@[2] == 's');
    assert("js"@.len() == 2 && "js"@[0] == 'j' && "js"@[1] == 's');
    assert("json"@.len() == 4 && "json"@[0] == 'j' && "json"@[1] == 's' && "json"@[2] == 'o' && "json"@[3] == 'n');
    assert("xml"@.len() == 3 && "xml"@[0] == 'x' && "xml"@[1] == 'm' && "xml"@[2] == 'l');
    assert("md"@.len() == 2 && "md"@[0] == 'm' && "md"@[1] == 'd');
    assert("csv"@.len() == 3 && "csv"@[0] == 'c' && "csv"@[1] == 's' && "csv"@[2] == 'v');
    assert("py"@.len() == 2 && "py"@[0] == 'p' && "py"@[1] == 'y');
    assert("rs"@.len() == 2 && "rs"@[0] == 'r' && "rs"@[1] == 's');
    assert("go"@.len() == 2 && "go"@[0] == 'g' && "go"@[1] == 'o');
    assert("java"@.len() == 4 && "java"@[0] == 'j' && "java"@[1] == 'a' && "java"@[2] == 'v' && "java"@[3] == 'a');
    assert("c"@.len() == 1 && "c"@[0] == 'c');
    assert("cpp"@.len() == 3 && "cpp"@[0] == 'c' && "cpp"@[1] == 'p' && "cpp"@[2] == 'p');
    assert("cc"@.len() == 2 && "cc"@[0] == 'c' && "cc"@[1] == 'c');
    assert("cxx"@.len() == 3 && "cxx"@[0] == 'c' && "cxx"@[1] == 'x' && "cxx"@[2] == 'x');
    assert("h"@.len() == 1 && "h"@[0] == 'h');
    assert("hpp"@.len() == 3 && "hpp"@[0] == 'h' && "hpp"@[1] == 'p' && "hpp"@[2] == 'p');
    assert("ts"@.len() == 2 && "ts"@[0] == 't' && "ts"@[1] == 's');
    assert("rb"@.len() == 2 && "rb"@[0] == 'r' && "rb"@[1] == 'b');
    assert("php"@.len() == 3 && "php"@[0] == 'p' && "php"@[1] == 'h' && "php"@[2] == 'p');
    assert("swift"@.len() == 5 && "swift"@[0] == 's' && "swift"@[1] == 'w' && "swift"@[2] == 'i' && "swift"@[3] == 'f' && "swift"@[4] == 't');
    assert("kt"@.len() == 2 && "kt"@[0] == 'k' && "kt"@[1] == 't');
    assert(mime_for_extension(t[0].0) == t[0].1);
    assert(mime_for_extension(t[1].0) == t[1].1);
    assert(mime_for_extension(t[2].0) == t[2].1);
    assert(mime_for_extension(t[3].0) == t[3].1);
    assert(mime_for_extension(t[4].0) == t[4].1);
    assert(mime_for_extension(t[5].0) == t[5].1);
    assert(mime_for_extension(t[6].0) == t[6].1);
    assert(mime_for_extension(t[7].0) == t[7].1);
    assert(mime_for_extension(t[8].0) == t[8].1);
    assert(mime_for_extension(t[9].0) == t[9].1);
    assert(mime_for_extension(t[10].0) == t[10].1);
    assert(mime_for_extension(t[11].0) == t[11].1);
    assert(mime_for_extension(t[12].0) == t[12].1);
    assert(mime_for_extension(t[13].0) == t[13].1);
    assert(mime_for_extension(t[14].0) == t[14].1);
    assert(mime_for_extension(t[15].0) == t[15].1);
    assert(mime_for_extension(t[16].0) == t[16].1);
    assert(mime_for_extension(t[17].0) == t[17].1);
    assert(mime_for_extension(t[18].0) == t[18].1);
    assert(mime_for_extension(t[19].0) == t[19].1);
    assert(mime_for_extension(t[20].0) == t[20].1);
    assert(mime_for_extension(t[21].0) == t[21].1);
    assert(mime_for_extension(t[22].0) == t[22].1);
    assert(mime_for_extension(t[23].0) == t[23].1);
    assert(mime_for_extension(t[24].0) == t[24].1);
    assert(mime_for_extension(t[25].0) == t[25].1);
    assert(mime_for_extension(t[26].0) == t[26].1);
    assert(mime_for_extension(t[27].0) == t[27].1);
    assert(mime_for_extension(t[28].0) == t[28].1);
    assert(mime_for_extension(t[29].0) == t[29].1);
    assert(mime_for_extension(t[30].0) == t[30].1);
    assert(mime_for_extension(t[31].0) == t[31].1);
    assert(mime_for_extension(t[32].0) == t[32].1);
    assert(mime_for_extension(t[33].0) == t[33].1);
    assert(mime_for_extension(t[34].0) == t[34].1);
    assert(mime_for_extension(t[35].0) == t[35].1);
    assert(mime_for_extension(t[36].0) == t[36].1);
    assert(mime_for_extension(t[37].0) == t[37].1);
    assert(mime_for_extension(t[38].0) == t[38].1);
    assert(mime_for_extension(t[39].0) == t[39].1);
    assert(mime_for_extension(t[40].0) == t[40].1);
    assert(mime_for_extension(t[41].0) == t[41].1);
    assert(mime_for_extension(t[42].0) == t[42].1);
    assert(mime_for_extension(t[43].0) == t[43].1);
    assert(mime_for_extension(t[44].0) == t[44].1);
    assert(mime_for_extension(t[45].0) == t[45].1);
    assert(mime_for_extension(t[46].0) == t[46].1);
    assert(mime_for_extension(t[47].0) == t[47].1);
    assert(mime_for_extension(t[48].0) == t[48].1);
    assert(mime_for_extension(t[49].0) == t[49].1);
    assert(mime_for_extension(t[50].0) == t[50].1);
    assert(mime_for_extension(t[51].0) == t[51].1);
    assert forall|i: int| 0 <= i < t.len() implies #[trigger] mime_for_extension(t[i].0) == t[i].1 by {
        assert(0 <= i < 52);
    }
    if forall|i: int| 0 <= i < t.len() ==> #[trigger] t[i].0 != ext {
        assert(t[0].0 != ext);
        assert(t[1].0 != ext);
        assert(t[2].0 != ext);
        assert(t[3].0 != ext);
        assert(t[4].0 != ext);
        assert(t[5].0 != ext);
        assert(t[6].0 != ext);
        assert(t[7].0 != ext);
        assert(t[8].0 != ext);
        assert(t[9].0 != ext);
        assert(t[10].0 != ext);
        assert(t[11].0 != ext);
        assert(t[12].0 != ext);
        assert(t[13].0 != ext);
        assert(t[14].0 != ext);
        assert(t[15].0 != ext);
        assert(t[16].0 != ext);
        assert(t[17].0 != ext);
        assert(t[18].0 != ext);
        assert(t[19].0 != ext);
        assert(t[20].0 != ext);
        assert(t[21].0 != ext);
        assert(t[22].0 != ext);
        assert(t[23].0 != ext);
        assert(t[24].0 != ext);
        assert(t[25].0 != ext);
        assert(t[26].0 != ext);
        assert(t[27].0 != ext);
        assert(t[28].0 != ext);
        assert(t[29].0 != ext);
        assert(t[30].0 != ext);
        assert(t[31].0 != ext);
        assert(t[32].0 != ext);
        assert(t[33].0 != ext);
        assert(t[34].0 != ext);
        assert(t[35].0 != ext);
        assert(t[36].0 != ext);
        assert(t[37].0 != ext);
        assert(t[38].0 != ext);
        assert(t[39].0 != ext);
        assert(t[40].0 != ext);
        assert(t[41].0 != ext);
        assert(t[42].0 != ext);
        assert(t[43].0 != ext);
        assert(t[44].0 != ext);
        assert(t[45].0 != ext);
        assert(t[46].0 != ext);
        assert(t[47].0 != ext);
        assert(t[48].0 != ext);
        assert(t[49].0 != ext);
        assert(t[50].0 != ext);
        assert(t[51].0 != ext);
    }
}

/// A file whose extension, in lower case, is one of the table gets that
/// extension's MIME type.
pub proof fn lemma_mime_of_path(path: Seq<char>, i: int)
    requires
        0 <= i < mime_table().len(),
        path_extension(path) matches Some(e) && lowercase(e) == mime_table()[i].0,
    ensures
        mime_from_path_spec(path) == mime_table()[i].1,
{
    lemma_mime_table(mime_table()[i].0);
}

/// The MIME type of a lower-case file extension, as [`mime_for_extension`] says.
pub fn mime_type_for_extension(ext: &str) -> (r: &'static str)
    ensures
        r@ == mime_for_extension(ext@),
        forall|i: int| 0 <= i < mime_table().len() && ext@ == #[trigger] mime_table()[i].0 ==> r@ == mime_table()[i].1,
{
    proof {
        lemma_mime_table(ext@);
    }
    if str_eq(ext, "mp3") { "audio/mpeg" }
    else if str_eq(ext, "wav") { "audio/wav" }
    else if str_eq(ext, "aac") { "audio/aac" }
    else if str_eq(ext, "ogg") { "audio/ogg" }
    else if str_eq(ext, "flac") { "audio/flac" }
    else if str_eq(ext, "m4a") { "audio/mp4" }
    else if str_eq(ext, "weba") { "audio/webm" }
    else if str_eq(ext, "mp4") { "video/mp4" }
    else if str_eq(ext, "mpeg") || str_eq(ext, "mpg") { "video/mpeg" }
    else if str_eq(ext, "mov") { "video/quicktime" }
    else if str_eq(ext, "avi") { "video/x-msvideo" }
    else if str_eq(ext, "webm") { "video/webm" }
    else if str_eq(ext, "mkv") { "video/x-matroska" }
    else if str_eq(ext, "flv") { "video/x-flv" }
    else if str_eq(ext, "wmv") { "video/x-ms-wmv" }
    else if str_eq(ext, "3gp") { "video/3gpp" }
    else if str_eq(ext, "jpg") || str_eq(ext, "jpeg") { "image/jpeg" }
    else if str_eq(ext, "png") { "image/png" }
    else if str_eq(ext, "gif") { "image/gif" }
    else if str_eq(ext, "webp") { "image/webp" }
    else if str_eq(ext, "heic") || str_eq(ext, "heif") { "image/heic" }
    else if str_eq(ext, "bmp") { "image/bmp" }
    else if str_eq(ext, "svg") { "image/svg+xml" }
    else if str_eq(ext, "ico") { "image/x-icon" }
    else if str_eq(ext, "pdf") { "application/pdf" }
    else if str_eq(ext, "txt") { "text/plain" }
    else if str_eq(ext, "html") || str_eq(ext, "htm") { "text/html" }
    else if str_eq(ext, "css") { "text/css" }
    else if str_eq(ext, "js") { "text/javascript" }
    else if str_eq(ext, "json") { "application/json" }
    else if str_eq(ext, "xml") { "application/xml" }
    else if str_eq(ext, "md") { "text/markdown" }
    else if str_eq(ext, "csv") { "text/csv" }
    else if str_eq(ext, "py") { "text/x-python" }
    else if str_eq(ext, "rs") { "text/x-rust" }
    else if str_eq(ext, "go") { "text/x-go" }
    else if str_eq(ext, "java") { "text/x-java" }
    else if str_eq(ext, "c") { "text/x-c" }
    else if str_eq(ext, "cpp") || str_eq(ext, "cc") || str_eq(ext, "cxx") { "text/x-c++" }
    else if str_eq(ext, "h") || str_eq(ext, "hpp") { "text/x-c" }
    else if str_eq(ext, "ts") { "text/typescript" }
    else if str_eq(ext, "rb") { "text/x-ruby" }
    else if str_eq(ext, "php") { "text/x-php" }
    else if str_eq(ext, "swift") { "text/x-swift" }
    else if str_eq(ext, "kt") { "text/x-kotlin" }
    else { "application/octet-stream" }
}

/// The MIME type of a file, by the lower-case form of its extension; a file
/// without an extension is taken to have the empty one.
pub open spec fn mime_from_path_spec(path: Seq<char>) -> Seq<char> {
    mime_for_extension(
        lowercase(
            match path_extension(path) {
                Some(e) => e,
                None => Seq::empty(),
            },
        ),
    )
}

/// The MIME type of a file, from its extension, as [`mime_from_path_spec`] says.
pub fn mime_from_path(path: &str) -> (r: String)
    ensures
        r@ == mime_from_path_spec(path@),
        forall|i: int|
            0 <= i < mime_table().len() && (path_extension(path@) matches Some(e) && lowercase(e)
                == #[trigger] mime_table()[i].0) ==> r@ == mime_table()[i].1,
{
    proof {
        assert forall|i: int|
            0 <= i < mime_table().len() && (path_extension(path@) matches Some(e) && lowercase(e)
                == #[trigger] mime_table()[i].0) implies mime_from_path_spec(path@) == mime_table()[i].1 by {
            lemma_mime_of_path(path@, i);
        }
    }
    let ext = match extension_of(path) {
        Some(e) => e,
        None => String::new(),
    };
    let lower = to_lowercase(ext.as_str());
    owned(mime_type_for_extension(lower.as_str()))
}

/// The seconds since the Unix epoch on the system clock, 0 for a clock set before
/// it (`SystemTime::now().duration_since(UNIX_EPOCH)`). Nothing is promised of the
/// value: it is the time.
#[verifier::external_body]
fn unix_seconds_now() -> (r: u64) {
    match std::time::SystemTime::now().duration_since(std::time::UNIX_EPOCH) {
        Ok(d) => d.as_secs(),
        Err(_) => 0,
    }
}

/// The current time as ISO 8601 text, such as `2024-03-01T12:00:00Z`, in the form
/// that [`iso8601_from_unix_seconds`] gives for whatever the clock reads.
pub fn chrono_now() -> (r: String)
    ensures
        exists|secs: u64, y: nat, m: nat, d: nat|
            valid_date(y as int, m as int, d as int)
                && days_since_epoch(y as int, m as int, d as int) == secs / 86400
                && r@ == #[trigger] iso8601_text(y, m, d, (secs % 86400) as nat),
{
    let secs = unix_seconds_now();
    iso8601_from_unix_seconds(secs)
}

/// One record of an upload: a local file and the remote file it became.
#[derive(Debug, Clone)]
pub struct FileMapping {
    /// Path of the local file.
    pub local_path: String,
    /// Name of the remote file, such as `files/abc123`.
    pub remote_name: String,
    /// URI of the remote file, for use in requests.
    pub remote_uri: String,
    /// MIME type of the file.
    pub mime_type: String,
    /// Time of the upload (ISO 8601).
    pub uploaded_at: String,
    /// Expiration time of the remote file (ISO 8601).
    pub expires_at: Option<String>,
}

impl FileMapping {
    /// The record of the upload of `local_path` as `file` at `uploaded_at`: the
    /// remote URI empty when the file has none.
    pub fn for_upload(local_path: &str, file: &FileMetadata, uploaded_at: String) -> (r: Self)
        ensures
            r.local_path@ == local_path@,
            r.remote_name@ == file.name@,
            r.remote_uri@ == match opt_view(file.uri) {
                Some(u) => u,
                None => Seq::empty(),
            },
            r.mime_type@ == file.mime_type@,
            r.uploaded_at == uploaded_at,
            opt_view(r.expires_at) == opt_view(file.expiration_time),
    {
        FileMapping {
            local_path: owned(local_path),
            remote_name: file.name.clone(),
            remote_uri: match &file.uri {
                Some(u) => u.clone(),
                None => String::new(),
            },
            mime_type: file.mime_type.clone(),
            uploaded_at,
            expires_at: file.expiration_time.clone(),
        }
    }
}

/// The first record whose local path is `local_path`, if any.
pub fn find_by_local_path(mappings: &[FileMapping], local_path: &str) -> (r: Option<FileMapping>)
    ensures
        match r {
            Some(m) => exists|i: int|
                0 <= i < mappings@.len() && mappings@[i].local_path@ == local_path@
                    && (forall|j: int| 0 <= j < i ==> mappings@[j].local_path@ != local_path@)
                    && m.local_path@ == mappings@[i].local_path@ && m.remote_name@ == mappings@[i].remote_name@
                    && m.remote_uri@ == mappings@[i].remote_uri@ && m.mime_type@ == mappings@[i].mime_type@
                    && m.uploaded_at@ == mappings@[i].uploaded_at@ && opt_view(m.expires_at) == opt_view(mappings@[i].expires_at),
            None => forall|j: int| 0 <= j < mappings@.len() ==> mappings@[j].local_path@ != local_path@,
        },
{
    let mut i: usize = 0;
    while i < mappings.len()
        invariant
            i <= mappings@.len(),
            forall|j: int| 0 <= j < i ==> mappings@[j].local_path@ != local_path@,
        decreases mappings@.len() - i,
    {
        if str_eq(mappings[i].local_path.as_str(), local_path) {
            return Some(copy_mapping(&mappings[i]));
        }
        i = i + 1;
    }
    None
}

/// The first record whose remote name is `remote_name`, if any.
pub fn find_by_remote_name(mappings: &[FileMapping], remote_name: &str) -> (r: Option<FileMapping>)
    ensures
        match r {
            Some(m) => exists|i: int|
                0 <= i < mappings@.len() && mappings@[i].remote_name@ == remote_name@
                    && (forall|j: int| 0 <= j < i ==> mappings@[j].remote_name@ != remote_name@)
                    && m.local_path@ == mappings@[i].local_path@ && m.remote_name@ == mappings@[i].remote_name@
                    && m.remote_uri@ == mappings@[i].remote_uri@ && m.mime_type@ == mappings@[i].mime_type@
                    && m.uploaded_at@ == mappings@[i].uploaded_at@ && opt_view(m.expires_at) == opt_view(mappings@[i].expires_at),
            None => forall|j: int| 0 <= j < mappings@.len() ==> mappings@[j].remote_name@ != remote_name@,
        },
{
    let mut i: usize = 0;
    while i < mappings.len()
        invariant
            i <= mappings@.len(),
            forall|j: int| 0 <= j < i ==> mappings@[j].remote_name@ != remote_name@,
        decreases mappings@.len() - i,
    {
        if str_eq(mappings[i].remote_name.as_str(), remote_name) {
            return Some(copy_mapping(&mappings[i]));
        }
        i = i + 1;
    }
    None
}

fn copy_mapping(m: &FileMapping) -> (r: FileMapping)
    ensures
        r.local_path@ == m.local_path@,
        r.remote_name@ == m.remote_name@,
        r.remote_uri@ == m.remote_uri@,
        r.mime_type@ == m.mime_type@,
        r.uploaded_at@ == m.uploaded_at@,
        opt_view(r.expires_at) == opt_view(m.expires_at),
{
    FileMapping {
        local_path: m.local_path.clone(),
        remote_name: m.remote_name.clone(),
        remote_uri: m.remote_uri.clone(),
        mime_type: m.mime_type.clone(),
        uploaded_at: m.uploaded_at.clone(),
        expires_at: m.expires_at.clone(),
    }
}

/// The lines of a log that are not blank, in order.
pub open spec fn log_lines_spec(lines: Seq<Seq<char>>) -> Seq<Seq<char>>
    decreases lines.len(),
{
    if lines.len() == 0 {
        Seq::empty()
    } else if trim_spec(lines.last()).len() == 0 {
        log_lines_spec(lines.drop_last())
    } else {
        log_lines_spec(lines.drop_last()).push(lines.last())
    }
}

/// The lines of a log's text that hold records: those that are not blank.
pub fn log_lines(content: &str) -> (r: Vec<String>)
    ensures
        r@.map_values(|s: String| s@) == log_lines_spec(lines_spec(content@)),
{
    let lines = split_lines(content);
    let ghost ls = lines_spec(content@);
    let mut out: Vec<String> = Vec::new();
    let mut i: usize = 0;
    while i < lines.len()
        invariant
            lines@.len() == ls.len(),
            forall|j: int| 0 <= j < lines@.len() ==> (#[trigger] lines@[j])@ == ls[j],
            i <= lines@.len(),
            out@.map_values(|s: String| s@) == log_lines_spec(ls.take(i as int)),
        decreases lines@.len() - i,
    {
        let ghost before = out@;
        assert(ls.take(i as int + 1).drop_last() =~= ls.take(i as int));
        assert(ls.take(i as int + 1).last() == lines@[i as int]@);
        if !is_blank(lines[i].as_str()) {
            out.push(lines[i].clone());
            assert(out@.map_values(|s: String| s@) =~= before.map_values(|s: String| s@).push(lines@[i as int]@));
        }
        i = i + 1;
    }
    assert(ls.take(ls.len() as int) =~= ls);
    out
}

} // verus!
