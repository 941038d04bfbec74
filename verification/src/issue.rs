//! The adapter that turns a classified fetch error into a diagnostic record
//! for the reporting pipeline: fixed title and category, a kind-specific
//! description built from four templates, and pass-through context, severity
//! and detail.

use vstd::prelude::*;
use vstd::string::StringExecFns;

use crate::error::FetchError;
use crate::error::FetchErrorKind;

verus! {

/// How severe a reported issue is.
#[derive(Clone, Copy, Debug, PartialEq, Eq, Structural)]
pub enum IssueSeverity {
    Bug,
    Fatal,
    Error,
    Warning,
    Hint,
    Note,
    Suggestion,
    Info,
}

/// The decimal digit character for a value below ten.
pub open spec fn dec_digit(d: nat) -> char {
    if d == 0 {
        '0'
    } else if d == 1 {
        '1'
    } else if d == 2 {
        '2'
    } else if d == 3 {
        '3'
    } else if d == 4 {
        '4'
    } else if d == 5 {
        '5'
    } else if d == 6 {
        '6'
    } else if d == 7 {
        '7'
    } else if d == 8 {
        '8'
    } else {
        '9'
    }
}

/// The decimal rendering of a number, most significant digit first, with no
/// leading zero except for the number zero itself.
pub open spec fn dec_str(n: nat) -> Seq<char>
    decreases n,
{
    if n < 10 {
        seq![dec_digit(n)]
    } else {
        dec_str(n / 10) + seq![dec_digit(n % 10)]
    }
}

fn push_digit(s: &mut String, d: u16)
    requires
        d < 10,
    ensures
        final(s)@ == old(s)@ + seq![dec_digit(d as nat)],
{
    let digit: &str = match d {
        0 => "0",
        1 => "1",
        2 => "2",
        3 => "3",
        4 => "4",
        5 => "5",
        6 => "6",
        7 => "7",
        8 => "8",
        _ => "9",
    };
    proof {
        reveal_strlit("0");
        reveal_strlit("1");
        reveal_strlit("2");
        reveal_strlit("3");
        reveal_strlit("4");
        reveal_strlit("5");
        reveal_strlit("6");
        reveal_strlit("7");
        reveal_strlit("8");
        reveal_strlit("9");
        assert(digit@ =~= seq![dec_digit(d as nat)]);
    }
    s.append(digit);
}

/// The decimal rendering of a status code, exactly as `dec_str` gives it.
pub fn status_to_string(n: u16) -> (r: String)
    ensures
        r@ == dec_str(n as nat),
    decreases n,
{
    if n < 10 {
        let mut s = String::new();
        push_digit(&mut s, n);
        proof {
            assert(s@ =~= dec_str(n as nat));
        }
        s
    } else {
        let mut s = status_to_string(n / 10);
        push_digit(&mut s, n % 10);
        proof {
            assert(s@ =~= dec_str(n as nat));
        }
        s
    }
}

/// The description of a failure, one template per kind, with the URL (and
/// the status code, where relevant) substituted in. The trailing punctuation
/// differs between the templates on purpose: it is part of the contract.
pub open spec fn description_of(kind: FetchErrorKind, url: Seq<char>) -> Seq<char> {
    match kind {
        FetchErrorKind::Connect => "There was an issue establishing a connection while requesting "@
            + url + "."@,
        FetchErrorKind::Status(code) => "Received response with status "@ + dec_str(code as nat)
            + " when requesting "@ + url,
        FetchErrorKind::Timeout => "Connection timed out when requesting "@ + url,
        FetchErrorKind::Other => "There was an issue requesting "@ + url,
    }
}

/// The diagnostic record derived from one fetch error: the location that
/// initiated the fetch, a severity, and the failure's URL, kind and detail.
#[derive(Debug)]
pub struct FetchIssue {
    pub issue_context: String,
    pub severity: IssueSeverity,
    pub url: String,
    pub kind: FetchErrorKind,
    pub detail: String,
}

impl FetchError {
    /// Builds the diagnostic record for this error: the supplied context and
    /// severity pass through, and the error's URL, kind and detail are kept
    /// exactly.
    pub fn to_issue(&self, severity: IssueSeverity, issue_context: String) -> (r: FetchIssue)
        ensures
            r.issue_context@ == issue_context@,
            r.severity == severity,
            r.url@ == self.url@,
            r.kind == self.kind,
            r.detail@ == self.detail@,
    {
        FetchIssue {
            issue_context,
            severity,
            url: self.url.clone(),
            kind: self.kind,
            detail: self.detail.clone(),
        }
    }
}

impl FetchIssue {
    /// The location that initiated the fetch, as supplied.
    pub fn file_path(&self) -> (r: &String)
        ensures
            r@ == self.issue_context@,
    {
        &self.issue_context
    }

    /// The severity, as supplied.
    pub fn severity(&self) -> (r: IssueSeverity)
        ensures
            r == self.severity,
    {
        self.severity
    }

    /// A fixed title, the same whatever the error kind, so that downstream
    /// tooling can group all fetch failures uniformly.
    pub fn title(&self) -> (r: String)
        ensures
            r@ == "Error while requesting resource"@,
    {
        "Error while requesting resource".to_owned()
    }

    /// A fixed category, the same whatever the error kind.
    pub fn category(&self) -> (r: String)
        ensures
            r@ == "fetch"@,
    {
        "fetch".to_owned()
    }

    /// The kind-specific sentence of `description_of`, built from the
    /// error's kind and URL alone.
    pub fn description(&self) -> (r: String)
        ensures
            r@ == description_of(self.kind, self.url@),
    {
        match self.kind {
            FetchErrorKind::Connect => {
                let mut s = "There was an issue establishing a connection while requesting "
                    .to_owned();
                s.append(self.url.as_str());
                s.append(".");
                s
            },
            FetchErrorKind::Status(code) => {
                let mut s = "Received response with status ".to_owned();
                let rendered = status_to_string(code);
                s.append(rendered.as_str());
                s.append(" when requesting ");
                s.append(self.url.as_str());
                proof {
                    assert(s@ =~= description_of(self.kind, self.url@));
                }
                s
            },
            FetchErrorKind::Timeout => {
                let mut s = "Connection timed out when requesting ".to_owned();
                s.append(self.url.as_str());
                s
            },
            FetchErrorKind::Other => {
                let mut s = "There was an issue requesting ".to_owned();
                s.append(self.url.as_str());
                s
            },
        }
    }

    /// The transport's own textual description of the failure, as kept in
    /// the error.
    pub fn detail(&self) -> (r: &String)
        ensures
            r@ == self.detail@,
    {
        &self.detail
    }
}

} // verus!
