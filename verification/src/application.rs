use vstd::prelude::*;
use vstd::std_specs::iter::IteratorSpec;

verus! {

/// Whether `c` has the Unicode `White_Space` property (the set `char::is_whitespace` accepts).
pub open spec fn is_whitespace_spec(c: char) -> bool {
    c == ' ' || ('\t' <= c && c <= '\r') || c == '\u{85}' || c == '\u{a0}' || c == '\u{1680}'
        || ('\u{2000}' <= c && c <= '\u{200a}') || c == '\u{2028}' || c == '\u{2029}'
        || c == '\u{202f}' || c == '\u{205f}' || c == '\u{3000}'
}

/// Whether `c` is in the Unicode general category `Cc` (the set `char::is_control` accepts).
pub open spec fn is_control_spec(c: char) -> bool {
    c <= '\u{1f}' || ('\u{7f}' <= c && c <= '\u{9f}')
}

/// A valid application label: non-empty, with no whitespace or control character anywhere
/// (and therefore nothing that trimming would remove).
pub open spec fn valid_application_name(s: Seq<char>) -> bool {
    &&& s.len() > 0
    &&& forall|i: int| 0 <= i < s.len() ==> !is_whitespace_spec(#[trigger] s[i])
    &&& forall|i: int| 0 <= i < s.len() ==> !is_control_spec(#[trigger] s[i])
}

pub(crate) fn is_whitespace_char(c: char) -> (r: bool)
    ensures
        r == is_whitespace_spec(c),
{
    c == ' ' || ('\t' <= c && c <= '\r') || c == '\u{85}' || c == '\u{a0}' || c == '\u{1680}'
        || ('\u{2000}' <= c && c <= '\u{200a}') || c == '\u{2028}' || c == '\u{2029}'
        || c == '\u{202f}' || c == '\u{205f}' || c == '\u{3000}'
}

fn is_control_char(c: char) -> (r: bool)
    ensures
        r == is_control_spec(c),
{
    c <= '\u{1f}' || ('\u{7f}' <= c && c <= '\u{9f}')
}

/// Validated identity of an application composed above the domain-neutral server host.
pub struct ApplicationName {
    value: String,
}

/// Invalid application identity: the name is empty or contains whitespace or a control
/// character.
#[derive(Clone, Copy, Debug, PartialEq, Eq, Structural)]
pub struct ApplicationNameError;

impl View for ApplicationName {
    type V = Seq<char>;

    closed spec fn view(&self) -> Seq<char> {
        self.value@
    }
}

impl ApplicationName {
    /// Creates a non-empty process label free of whitespace and control characters.
    pub fn new(value: String) -> (r: Result<ApplicationName, ApplicationNameError>)
        ensures
            r is Ok <==> valid_application_name(value@),
            r matches Ok(name) ==> name@ == value@,
    {
        let mut valid = !value.as_str().is_empty();
        let ghost chars = value@;
        let mut iter = value.as_str().chars();
        proof {
            broadcast use vstd::string::axiom_spec_iter;
        }
        let ghost mut seen: int = 0;
        loop
            invariant_except_break
                iter.remaining() == chars.skip(seen),
                0 <= seen <= chars.len(),
                chars == value@,
                valid <==> (value@.len() > 0
                    && (forall|i: int| 0 <= i < seen ==> !is_whitespace_spec(#[trigger] chars[i]))
                    && (forall|i: int| 0 <= i < seen ==> !is_control_spec(#[trigger] chars[i]))),
            ensures
                valid <==> valid_application_name(value@),
            decreases chars.len() - seen,
        {
            proof {
                broadcast use vstd::string::next_postcondition;
            }
            let next = iter.next();
            match next {
                None => {
                    assert(chars.skip(seen).len() == 0);
                    assert(seen == chars.len());
                    break;
                },
                Some(c) => {
                    if is_whitespace_char(c) || is_control_char(c) {
                        valid = false;
                    }
                    proof {
                        seen = seen + 1;
                    }
                },
            }
        }
        if valid {
            Ok(ApplicationName { value })
        } else {
            Err(ApplicationNameError)
        }
    }

    /// Returns the validated process label.
    pub fn as_str(&self) -> (r: &str)
        ensures
            r@ == self@,
    {
        self.value.as_str()
    }
}

/// Product composition started and supervised by the server host without teaching the host its
/// workflow, artifacts, roles, or admission rules.
pub trait ApplicationModule {
    type Error;

    fn name(&self) -> &ApplicationName;

    fn run(self) -> Result<(), Self::Error>;
}

} // verus!
