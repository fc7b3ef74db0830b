use vstd::prelude::*;

use crate::text::{push_signed, signed_decimal};

verus! {

/// Results of this library use `DdcError` as their error.
pub type Result<T> = std::result::Result<T, DdcError>;

/// The status code that the native library returns on success.
pub const DDCRC_OK: i32 = 0;

/// One cause in an error detail: its status code, the name and description
/// that the code table gives for it, and its optional detail text.
#[derive(Debug)]
pub struct ErrorCause {
    pub status_code: i32,
    pub name: String,
    pub desc: String,
    pub detail: Option<String>,
}

/// A snapshot of the native library's error detail: the status code it was
/// recorded for, its detail text, and its causes, `None` where a cause slot
/// is empty.
#[derive(Debug)]
pub struct ErrorDetail {
    pub status_code: i32,
    pub detail: Option<String>,
    pub causes: Vec<Option<ErrorCause>>,
}

/// An error of the native library: the failing status code, its name and
/// description, and the detail recorded for that same code, if any.
#[derive(Debug)]
pub struct DdcError {
    rc: i32,
    name: String,
    desc: String,
    detail: Option<ErrorDetail>,
}

/// A failing status code whose name, description and detail have yet to be
/// looked up.
#[derive(Debug)]
pub struct PendingError {
    rc: i32,
}

/// The detail that an error keeps: the one offered, where it was recorded
/// for the same status code, and none otherwise.
pub open spec fn kept_detail(rc: i32, detail: Option<ErrorDetail>) -> Option<ErrorDetail> {
    match detail {
        Some(d) => if d.status_code == rc {
            Some(d)
        } else {
            None
        },
        None => None,
    }
}

/// Optional text, or `n/a` where there is none.
pub open spec fn text_or_na(t: Option<String>) -> Seq<char> {
    match t {
        Some(s) => s@,
        None => "n/a"@,
    }
}

/// The report line of one cause.
pub open spec fn cause_line(c: ErrorCause) -> Seq<char> {
    "    "@ + c.name@ + " ("@ + signed_decimal(c.status_code as int) + "): "@ + c.desc@
        + "   Detail: "@ + text_or_na(c.detail) + "\n"@
}

/// The report lines of the present causes, in order; empty slots give none.
pub open spec fn cause_lines(cs: Seq<Option<ErrorCause>>) -> Seq<char>
    decreases cs.len(),
{
    if cs.len() == 0 {
        Seq::empty()
    } else {
        cause_lines(cs.drop_last()) + match cs.last() {
            Some(c) => cause_line(c),
            None => Seq::empty(),
        }
    }
}

/// The report on an error: the primary line, then the detail text and the
/// causes where a detail is present.
pub open spec fn report(rc: i32, name: Seq<char>, desc: Seq<char>, detail: Option<ErrorDetail>) -> Seq<
    char,
> {
    let head = "DDC Error: "@ + name + " ("@ + signed_decimal(rc as int) + "): "@ + desc + "\n"@;
    match detail {
        None => head,
        Some(d) => {
            let with_detail = head + "  Detail: "@ + text_or_na(d.detail) + "\n"@;
            if d.causes@.len() == 0 {
                with_detail
            } else {
                with_detail + "  Caused by:\n"@ + cause_lines(d.causes@)
            }
        },
    }
}

impl DdcError {
    pub closed spec fn spec_rc(&self) -> i32 {
        self.rc
    }

    pub closed spec fn spec_name(&self) -> Seq<char> {
        self.name@
    }

    pub closed spec fn spec_desc(&self) -> Seq<char> {
        self.desc@
    }

    pub closed spec fn spec_detail(&self) -> Option<ErrorDetail> {
        self.detail
    }

    /// An error for status `rc`, with the name and description that the code
    /// table gives for it and the detail fetched right after the failure. A
    /// detail recorded for another code is stale and is dropped.
    pub fn new(rc: i32, name: String, desc: String, detail: Option<ErrorDetail>) -> (r: DdcError)
        ensures
            r.rc() == rc,
            r.spec_name() == name@,
            r.spec_desc() == desc@,
            r.spec_detail() == kept_detail(rc, detail),
    {
        let detail = match detail {
            Some(d) => if d.status_code == rc {
                Some(d)
            } else {
                None
            },
            None => None,
        };
        DdcError { rc, name, desc, detail }
    }

    /// Turns a status code into a result: `Ok` for success, else the pending
    /// error for that code.
    pub fn check(rc: i32) -> (r: std::result::Result<(), PendingError>)
        ensures
            r.is_ok() <==> rc == DDCRC_OK,
            r.is_err() ==> r->Err_0.rc() == rc,
    {
        if rc == DDCRC_OK {
            Ok(())
        } else {
            Err(PendingError { rc })
        }
    }

    /// The failing status code.
    #[verifier::when_used_as_spec(spec_rc)]
    pub fn rc(&self) -> (r: i32)
        ensures
            r == self.spec_rc(),
    {
        self.rc
    }

    /// The name of the status code.
    pub fn name(&self) -> (r: &str)
        ensures
            r@ == self.spec_name(),
    {
        self.name.as_str()
    }

    /// The description of the status code.
    pub fn desc(&self) -> (r: &str)
        ensures
            r@ == self.spec_desc(),
    {
        self.desc.as_str()
    }

    /// The detail recorded for this failure, if any.
    pub fn detail(&self) -> (r: &Option<ErrorDetail>)
        ensures
            *r == self.spec_detail(),
    {
        &self.detail
    }

    /// The causes in the detail, where a detail is present and lists any.
    pub fn detail_causes(&self) -> (r: Option<&[Option<ErrorCause>]>)
        ensures
            match self.spec_detail() {
                Some(d) => if d.causes@.len() == 0 {
                    r.is_none()
                } else {
                    r.is_some() && r->0@ == d.causes@
                },
                None => r.is_none(),
            },
    {
        match &self.detail {
            Some(d) => if d.causes.len() == 0 {
                None
            } else {
                Some(d.causes.as_slice())
            },
            None => None,
        }
    }

    /// The report on this error, one line for the error, one for its detail
    /// text, and one for each present cause.
    pub fn to_string(&self) -> (r: String)
        ensures
            r@ == report(self.rc(), self.spec_name(), self.spec_desc(), self.spec_detail()),
    {
        proof {
            reveal_strlit("DDC Error: ");
            reveal_strlit(" (");
            reveal_strlit("): ");
            reveal_strlit("\n");
        }
        let mut s = String::new();
        s.append("DDC Error: ");
        s.append(self.name.as_str());
        s.append(" (");
        push_signed(&mut s, self.rc);
        s.append("): ");
        s.append(self.desc.as_str());
        s.append("\n");
        let ghost head = s@;
        assert(head =~= "DDC Error: "@ + self.name@ + " ("@ + signed_decimal(self.rc as int) + "): "@
            + self.desc@ + "\n"@);
        match &self.detail {
            None => {},
            Some(d) => {
                s.append("  Detail: ");
                push_text_or_na(&mut s, &d.detail);
                s.append("\n");
                if d.causes.len() > 0 {
                    s.append("  Caused by:\n");
                    let ghost before = s@;
                    let mut i: usize = 0;
                    while i < d.causes.len()
                        invariant
                            i <= d.causes@.len(),
                            s@ == before + cause_lines(d.causes@.take(i as int)),
                        decreases d.causes@.len() - i,
                    {
                        match &d.causes[i] {
                            Some(c) => push_cause_line(&mut s, c),
                            None => {},
                        }
                        proof {
                            assert(d.causes@.take(i + 1 as int).drop_last() =~= d.causes@.take(
                                i as int,
                            ));
                        }
                        i += 1;
                    }
                    proof {
                        assert(d.causes@.take(i as int) =~= d.causes@);
                    }
                }
            },
        }
        s
    }
}

fn push_text_or_na(s: &mut String, t: &Option<String>)
    ensures
        final(s)@ == old(s)@ + text_or_na(*t),
{
    match t {
        Some(x) => s.append(x.as_str()),
        None => s.append("n/a"),
    }
}

fn push_cause_line(s: &mut String, c: &ErrorCause)
    ensures
        final(s)@ == old(s)@ + cause_line(*c),
{
    let ghost start = s@;
    s.append("    ");
    s.append(c.name.as_str());
    s.append(" (");
    push_signed(s, c.status_code);
    s.append("): ");
    s.append(c.desc.as_str());
    s.append("   Detail: ");
    push_text_or_na(s, &c.detail);
    s.append("\n");
    assert(s@ =~= start + cause_line(*c));
}

impl PendingError {
    pub closed spec fn spec_rc(&self) -> i32 {
        self.rc
    }

    /// The failing status code.
    #[verifier::when_used_as_spec(spec_rc)]
    pub fn rc(&self) -> (r: i32)
        ensures
            r == self.spec_rc(),
    {
        self.rc
    }

    /// The error, once the code's name and description have been looked up
    /// and the last error detail fetched; a stale detail is dropped.
    pub fn complete(self, name: String, desc: String, detail: Option<ErrorDetail>) -> (r: DdcError)
        ensures
            r.rc() == self.rc(),
            r.spec_name() == name@,
            r.spec_desc() == desc@,
            r.spec_detail() == kept_detail(self.rc(), detail),
    {
        DdcError::new(self.rc, name, desc, detail)
    }
}

/// A detail fetched after a failure but recorded for another status code is
/// never reported: the error then carries no detail.
pub proof fn lemma_stale_detail_rejected(rc: i32, d: ErrorDetail)
    requires
        d.status_code != rc,
    ensures
        kept_detail(rc, Some(d)).is_none(),
{
}

#[verifier::external_type_specification]
#[verifier::external_body]
pub struct ExAnyhowError(anyhow::Error);

/// Relies on anyhow::Error::msg: it wraps the given text as an error.
#[verifier::external_body]
fn message_error(text: String) -> anyhow::Error {
    anyhow::Error::msg(text)
}

/// Conversion of this library's errors into `anyhow` errors that carry the
/// error's report as their message.
pub trait ConvertToAnyhow: Sized {
    type Output;

    /// Whether `out` is what the conversion of `self` gives: a successful
    /// result keeps its value and an error stays an error.
    spec fn converted(self, out: Self::Output) -> bool;

    fn anyhow(self) -> (r: Self::Output)
        ensures
            self.converted(r),
    ;
}

impl ConvertToAnyhow for DdcError {
    type Output = anyhow::Error;

    /// The message of an `anyhow` error cannot be observed here.
    open spec fn converted(self, out: anyhow::Error) -> bool {
        true
    }

    fn anyhow(self) -> (r: anyhow::Error) {
        let text = self.to_string();
        message_error(text)
    }
}

impl<T> ConvertToAnyhow for std::result::Result<T, DdcError> {
    type Output = std::result::Result<T, anyhow::Error>;

    open spec fn converted(self, out: std::result::Result<T, anyhow::Error>) -> bool {
        match (self, out) {
            (Ok(v), Ok(w)) => v == w,
            (Err(_), Err(_)) => true,
            _ => false,
        }
    }

    fn anyhow(self) -> (r: std::result::Result<T, anyhow::Error>) {
        match self {
            Ok(v) => Ok(v),
            Err(e) => Err(e.anyhow()),
        }
    }
}

} // verus!
