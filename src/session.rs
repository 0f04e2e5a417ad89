use vstd::prelude::*;
use vstd::string::StringExecFns;
use vstd::string::StrSliceExecFns;

verus! {

/// Whether the standard library counts `c` as alphanumeric (Unicode
/// `Alphabetic` or `Numeric`).
pub uninterp spec fn alphanumeric(c: char) -> bool;

/// Relies on `char::is_alphanumeric`: whether `c` is a letter or a digit in
/// Unicode's sense.
#[verifier::external_body]
fn char_is_alphanumeric(c: char) -> (r: bool)
    ensures
        r == alphanumeric(c),
{
    c.is_alphanumeric()
}

/// Relies on `String::push`: appends one character.
#[verifier::external_body]
fn push_char(s: &mut String, c: char)
    ensures
        final(s)@ == old(s)@.push(c),
{
    s.push(c)
}

/// Whether `c` is a lower-case hexadecimal digit.
pub open spec fn lower_hex_digit(c: char) -> bool {
    ('0' <= c && c <= '9') || ('a' <= c && c <= 'f')
}

/// Whether `s` has the hyphenated form of a UUID: 36 characters, hyphens at
/// positions 8, 13, 18 and 23, lower-case hexadecimal digits elsewhere.
pub open spec fn hyphenated_id(s: Seq<char>) -> bool {
    &&& s.len() == 36
    &&& forall|i: int|
        0 <= i < 36 ==> if i == 8 || i == 13 || i == 18 || i == 23 {
            s[i] == '-'
        } else {
            lower_hex_digit(#[trigger] s[i])
        }
}

/// Relies on `uuid::Uuid::new_v4` and its `Display`, which writes the
/// lower-case hyphenated form: a fresh random id.
#[verifier::external_body]
fn random_id() -> (r: String)
    ensures
        hyphenated_id(r@),
{
    uuid::Uuid::new_v4().to_string()
}

/// Whether `c` may stand in a window label.
pub open spec fn label_char(c: char) -> bool {
    alphanumeric(c) || c == '/' || c == '-' || c == ':' || c == '_'
}

/// `s` with every character that may not stand in a window label left out.
pub open spec fn sanitized(s: Seq<char>) -> Seq<char>
    decreases s.len(),
{
    if s.len() == 0 {
        Seq::empty()
    } else if label_char(s.last()) {
        sanitized(s.drop_last()).push(s.last())
    } else {
        sanitized(s.drop_last())
    }
}

/// The label of the dialog surface of session `id`.
pub open spec fn label_of(prefix: Seq<char>, id: Seq<char>) -> Seq<char> {
    sanitized(prefix) + "-"@ + id
}

/// The name of the result event of session `id`.
pub open spec fn event_name_of(id: Seq<char>) -> Seq<char> {
    "dialog-result-"@ + id
}

/// Keeps, in order, the characters of `prefix` that may stand in a window
/// label: letters, digits and `/ - : _`.
pub fn sanitize_prefix(prefix: &str) -> (r: String)
    ensures
        r@ == sanitized(prefix@),
{
    let n = prefix.unicode_len();
    let mut out = String::new();
    let mut i: usize = 0;
    while i < n
        invariant
            n == prefix@.len(),
            i <= n,
            out@ == sanitized(prefix@.subrange(0, i as int)),
        decreases n - i,
    {
        let c = prefix.get_char(i);
        assert(prefix@.subrange(0, i + 1).drop_last() =~= prefix@.subrange(0, i as int));
        if char_is_alphanumeric(c) || c == '/' || c == '-' || c == ':' || c == '_' {
            push_char(&mut out, c);
        }
        i = i + 1;
    }
    assert(prefix@.subrange(0, n as int) =~= prefix@);
    out
}

/// One dialog session: its id, the label of its surface, the name of its
/// result event, the surface it was opened from and whether it is modal.
pub struct DialogSession {
    pub id: String,
    pub window_label: String,
    pub event_name: String,
    pub parent_label: Option<String>,
    pub is_modal: bool,
}

impl DialogSession {
    /// The session `id` opened from `parent_label` for a surface named after
    /// `prefix`.
    pub fn with_id(prefix: &str, id: String, parent_label: Option<String>, is_modal: bool) -> (r:
        DialogSession)
        ensures
            r.id@ == id@,
            r.window_label@ == label_of(prefix@, id@),
            r.event_name@ == event_name_of(id@),
            r.parent_label == parent_label,
            r.is_modal == is_modal,
    {
        let label = sanitize_prefix(prefix).concat("-").concat(id.as_str());
        let event_name = String::from_str("dialog-result-").concat(id.as_str());
        DialogSession { id, window_label: label, event_name, parent_label, is_modal }
    }

    /// A new session with a fresh random id.
    pub fn new(prefix: &str, parent_label: Option<String>, is_modal: bool) -> (r: DialogSession)
        ensures
            hyphenated_id(r.id@),
            r.window_label@ == label_of(prefix@, r.id@),
            r.event_name@ == event_name_of(r.id@),
            r.parent_label == parent_label,
            r.is_modal == is_modal,
    {
        let id = random_id();
        DialogSession::with_id(prefix, id, parent_label, is_modal)
    }
}

} // verus!
