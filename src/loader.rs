use vstd::prelude::*;
use vstd::utf8::{
    decode_utf8, decode_utf8_encode_utf8, encode_utf8, encode_utf8_decode_utf8, encode_utf8_valid_utf8,
    valid_utf8,
};

verus! {

/// Why a story text could not be loaded.
#[derive(Clone, Copy, Debug, PartialEq, Eq, Structural)]
pub enum LoadError {
    /// The path does not lead to a readable file.
    NotFound,
    /// Access to the file was refused.
    PermissionDenied,
    /// The file's bytes are not valid UTF-8.
    InvalidEncoding,
    /// Any other failure of the read.
    Io,
}

/// What is written for a banner and a text: the banner, a line break, then the text.
pub open spec fn display_of(banner: Seq<char>, text: Seq<char>) -> Seq<char> {
    banner + seq!['\n'] + text
}

/// Builds the output shown for `text` under `banner`.
pub fn render_display(banner: &str, text: &str) -> (r: String)
    ensures
        r@ == display_of(banner@, text@),
{
    let mut out = String::from_str(banner);
    out.append("\n");
    out.append(text);
    proof {
        reveal_strlit("\n");
    }
    out
}

/// std's `io::ErrorKind`, declared so that its variants can be matched in verified code.
#[verifier::external_type_specification]
pub struct ExErrorKind(std::io::ErrorKind);

/// The load error that a failed read of the given kind stands for.
pub open spec fn load_error_of_kind(kind: std::io::ErrorKind) -> LoadError {
    match kind {
        std::io::ErrorKind::NotFound => LoadError::NotFound,
        std::io::ErrorKind::PermissionDenied => LoadError::PermissionDenied,
        std::io::ErrorKind::InvalidData => LoadError::InvalidEncoding,
        _ => LoadError::Io,
    }
}

/// Classifies a failed read by the kind of its error.
pub fn load_error_from_kind(kind: std::io::ErrorKind) -> (r: LoadError)
    ensures
        r == load_error_of_kind(kind),
{
    match kind {
        std::io::ErrorKind::NotFound => LoadError::NotFound,
        std::io::ErrorKind::PermissionDenied => LoadError::PermissionDenied,
        std::io::ErrorKind::InvalidData => LoadError::InvalidEncoding,
        _ => LoadError::Io,
    }
}

/// The complete decoded contents of a story file.
pub struct StoryText {
    text: String,
}

impl View for StoryText {
    type V = Seq<char>;

    closed spec fn view(&self) -> Seq<char> {
        self.text@
    }
}

/// Relies on `String::from_utf8`: it succeeds exactly when the bytes are valid UTF-8,
/// and then holds the characters they encode.
#[verifier::external_body]
fn string_from_utf8(bytes: Vec<u8>) -> (r: Option<String>)
    ensures
        r is Some <==> valid_utf8(bytes@),
        r is Some ==> r->Some_0@ == decode_utf8(bytes@),
{
    String::from_utf8(bytes).ok()
}

impl StoryText {
    /// Decodes the whole of a file's bytes as UTF-8 text.
    pub fn from_bytes(bytes: Vec<u8>) -> (r: Result<StoryText, LoadError>)
        ensures
            r is Ok <==> valid_utf8(bytes@),
            r is Ok ==> r->Ok_0@ == decode_utf8(bytes@),
            r is Err ==> r->Err_0 == LoadError::InvalidEncoding,
    {
        match string_from_utf8(bytes) {
            Some(text) => Ok(StoryText { text }),
            None => Err(LoadError::InvalidEncoding),
        }
    }

    /// The text itself.
    pub fn as_str(&self) -> (r: &str)
        ensures
            r@ == self@,
    {
        self.text.as_str()
    }

    /// The output shown for this text under `banner`.
    pub fn display(&self, banner: &str) -> (r: String)
        ensures
            r@ == display_of(banner@, self@),
    {
        render_display(banner, self.text.as_str())
    }
}

/// What a read of a file gave, as the library sees it: its bytes, or the kind of its failure.
pub open spec fn read_view(read: Result<Vec<u8>, std::io::ErrorKind>) -> Result<Seq<u8>, std::io::ErrorKind> {
    match read {
        Ok(bytes) => Ok(bytes@),
        Err(kind) => Err(kind),
    }
}

/// The output of a load, as characters, or its error.
pub open spec fn output_view(r: Result<String, LoadError>) -> Result<Seq<char>, LoadError> {
    match r {
        Ok(s) => Ok(s@),
        Err(e) => Err(e),
    }
}

/// The outcome of loading a story under `banner` from what its read gave: the banner and
/// the decoded text on success, else the error, with nothing to show.
pub open spec fn story_output_of(
    banner: Seq<char>,
    read: Result<Seq<u8>, std::io::ErrorKind>,
) -> Result<Seq<char>, LoadError> {
    match read {
        Err(kind) => Err(load_error_of_kind(kind)),
        Ok(bytes) => if valid_utf8(bytes) {
            Ok(display_of(banner, decode_utf8(bytes)))
        } else {
            Err(LoadError::InvalidEncoding)
        },
    }
}

/// Decides what a load shows, given the result of reading the file: on success the text to
/// write, on failure the error, in which case nothing is written.
pub fn story_output(banner: &str, read: Result<Vec<u8>, std::io::ErrorKind>) -> (r: Result<
    String,
    LoadError,
>)
    ensures
        output_view(r) == story_output_of(banner@, read_view(read)),
{
    match read {
        Err(kind) => Err(load_error_from_kind(kind)),
        Ok(bytes) => match StoryText::from_bytes(bytes) {
            Ok(story) => Ok(story.display(banner)),
            Err(e) => Err(e),
        },
    }
}

/// Encoding a concatenation of characters gives the concatenation of their encodings.
proof fn lemma_encode_utf8_concat(a: Seq<char>, b: Seq<char>)
    ensures
        encode_utf8(a + b) == encode_utf8(a) + encode_utf8(b),
    decreases a.len(),
{
    if a.len() == 0 {
        assert(a + b =~= b);
        assert(encode_utf8(a) + encode_utf8(b) =~= encode_utf8(b));
    } else {
        assert((a + b).drop_first() =~= a.drop_first() + b);
        assert((a + b)[0] == a[0]);
        lemma_encode_utf8_concat(a.drop_first(), b);
        assert(encode_utf8(a + b) =~= encode_utf8(a) + encode_utf8(b));
    }
}

/// A readable file of valid UTF-8 is loaded and shown whole: the output is the banner, a
/// line break and the decoded text, and its UTF-8 bytes are the banner's bytes, a line feed,
/// then the file's bytes unchanged.
pub proof fn lemma_valid_file_shown_whole(banner: Seq<char>, bytes: Seq<u8>)
    requires
        valid_utf8(bytes),
    ensures
        story_output_of(banner, Ok(bytes)) == Ok::<Seq<char>, LoadError>(
            display_of(banner, decode_utf8(bytes)),
        ),
        encode_utf8(display_of(banner, decode_utf8(bytes))) == encode_utf8(banner) + seq![
            0x0au8,
        ] + bytes,
{
    let text = decode_utf8(bytes);
    let line_break = seq!['\n'];
    decode_utf8_encode_utf8(bytes);
    lemma_encode_utf8_concat(banner + line_break, text);
    lemma_encode_utf8_concat(banner, line_break);
    assert(line_break.drop_first() =~= Seq::<char>::empty());
    assert(encode_utf8(Seq::<char>::empty()) == Seq::<u8>::empty());
    assert(('\n' as u32) == 0x0a);
    assert((0x0au32 & 0x7f) as u8 == 0x0au8) by (bit_vector);
    assert(encode_utf8(line_break) =~= seq![0x0au8]);
}

/// Text given as characters is shown whole: a file that holds the UTF-8 encoding of `text`
/// shows the banner, a line break, then exactly `text`.
pub proof fn lemma_encoded_text_shown_whole(banner: Seq<char>, text: Seq<char>)
    ensures
        story_output_of(banner, Ok(encode_utf8(text))) == Ok::<Seq<char>, LoadError>(
            display_of(banner, text),
        ),
{
    encode_utf8_valid_utf8(text);
    encode_utf8_decode_utf8(text);
}

/// A path that leads to no file gives `NotFound`, and nothing is shown.
pub proof fn lemma_missing_file_not_found(banner: Seq<char>)
    ensures
        story_output_of(banner, Err(std::io::ErrorKind::NotFound)) == Err::<Seq<char>, LoadError>(
            LoadError::NotFound,
        ),
{
}

/// A file whose access is refused gives `PermissionDenied`, and nothing is shown.
pub proof fn lemma_refused_file_permission_denied(banner: Seq<char>)
    ensures
        story_output_of(banner, Err(std::io::ErrorKind::PermissionDenied)) == Err::<
            Seq<char>,
            LoadError,
        >(LoadError::PermissionDenied),
{
}

/// A file whose bytes are not valid UTF-8 gives `InvalidEncoding`, and nothing is shown.
pub proof fn lemma_invalid_bytes_invalid_encoding(banner: Seq<char>, bytes: Seq<u8>)
    requires
        !valid_utf8(bytes),
    ensures
        story_output_of(banner, Ok(bytes)) == Err::<Seq<char>, LoadError>(
            LoadError::InvalidEncoding,
        ),
{
}

/// Loading the same unchanged file twice under the same banner shows the same output both
/// times: two outcomes that each meet the contract of `story_output` for one banner and one
/// read are equal.
pub proof fn lemma_load_repeatable(
    banner: Seq<char>,
    read: Result<Seq<u8>, std::io::ErrorKind>,
    first: Result<Seq<char>, LoadError>,
    second: Result<Seq<char>, LoadError>,
)
    requires
        first == story_output_of(banner, read),
        second == story_output_of(banner, read),
    ensures
        first == second,
{
}

} // verus!
