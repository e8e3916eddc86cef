use vstd::prelude::*;

use crate::text::{
    find_first_colon, first_colon, no_colon, strip_eol, strip_line_ending, trim_whitespace,
    trim_ws,
};

verus! {

/// Identity and secret for the source service and the destination service,
/// resolved once per run. The secrets are opaque: nothing in this crate
/// writes them anywhere but into the requests that need them.
pub struct Credentials {
    pub source_user: String,
    pub source_secret: String,
    pub dest_user: String,
    pub dest_secret: String,
}

/// Why a credentials file was rejected; each variant names the line at fault.
#[derive(Clone, Copy, Debug, PartialEq, Eq, Structural)]
pub enum CredentialsError {
    MalformedSourceLine,
    MalformedDestinationLine,
}

impl CredentialsError {
    /// A fixed message naming the line at fault.
    pub fn describe(&self) -> (r: String)
        ensures
            *self is MalformedSourceLine ==> r@ == "malformed source line in credentials file"@,
            *self is MalformedDestinationLine ==> r@
                == "malformed destination line in credentials file"@,
    {
        match self {
            CredentialsError::MalformedSourceLine => "malformed source line in credentials file"
                .to_owned(),
            CredentialsError::MalformedDestinationLine =>
                "malformed destination line in credentials file".to_owned(),
        }
    }
}

/// The name token of a credentials line: everything before the first `':'`,
/// or the whole line when there is no `':'`.
pub open spec fn line_name(s: Seq<char>) -> Seq<char> {
    s.take(first_colon(s))
}

/// The secret token of a credentials line: everything after the first `':'`,
/// or empty when there is no `':'`.
pub open spec fn line_secret(s: Seq<char>) -> Seq<char> {
    if first_colon(s) == s.len() {
        Seq::empty()
    } else {
        s.skip(first_colon(s) + 1)
    }
}

/// A line that splits at one `':'` into exactly two non-empty tokens.
pub open spec fn two_token_line(s: Seq<char>) -> bool {
    let i = first_colon(s);
    i < s.len() && 0 < i && i + 1 < s.len() && no_colon(s.skip(i + 1))
}

/// What the source line must look like. With a required secret it must carry
/// two non-empty tokens; otherwise a single non-empty name token suffices,
/// with at most one `':'` after it.
pub open spec fn source_line_ok(s: Seq<char>, requires_secret: bool) -> bool {
    if requires_secret {
        two_token_line(s)
    } else {
        let i = first_colon(s);
        0 < i && (i == s.len() || no_colon(s.skip(i + 1)))
    }
}

/// Scans `s` from `from` for a `':'`; used to reject lines with more than one.
fn rest_has_colon(s: &str, from: usize) -> (r: bool)
    requires
        from <= s@.len(),
    ensures
        r == !no_colon(s@.skip(from as int)),
{
    let n = s.unicode_len();
    let rest = s.substring_char(from, n);
    proof {
        assert(rest@ =~= s@.skip(from as int));
    }
    match find_first_colon(rest) {
        Some(i) => {
            proof {
                crate::text::lemma_first_colon(rest@);
                assert(s@.skip(from as int)[i as int] == ':');
            }
            true
        },
        None => false,
    }
}

/// Parses the source-service line of a credentials file. The line is taken
/// as read, with its line ending; its surrounding white space is removed
/// first, so no secret ever keeps a stray blank or carriage return. When the
/// run does not require a source secret, the secret resolves to the empty
/// string even if the line carries one.
pub fn parse_source_line(line: &str, requires_secret: bool) -> (r: Result<
    (String, String),
    CredentialsError,
>)
    ensures
        r is Ok <==> source_line_ok(trim_ws(line@), requires_secret),
        r matches Ok(p) ==> p.0@ == line_name(trim_ws(line@)),
        r matches Ok(p) ==> p.1@ == if requires_secret {
            line_secret(trim_ws(line@))
        } else {
            Seq::<char>::empty()
        },
        r matches Err(e) ==> e == CredentialsError::MalformedSourceLine,
{
    let s = trim_whitespace(line);
    let n = s.as_str().unicode_len();
    match find_first_colon(s.as_str()) {
        None => {
            if n > 0 && !requires_secret {
                proof {
                    assert(s@.take(first_colon(s@)) =~= s@);
                }
                Ok((s, String::new()))
            } else {
                Err(CredentialsError::MalformedSourceLine)
            }
        },
        Some(i) => {
            if i == 0 {
                return Err(CredentialsError::MalformedSourceLine);
            }
            if rest_has_colon(s.as_str(), i + 1) {
                return Err(CredentialsError::MalformedSourceLine);
            }
            if requires_secret && i + 1 >= n {
                return Err(CredentialsError::MalformedSourceLine);
            }
            let name = s.as_str().substring_char(0, i).to_owned();
            let secret = if requires_secret {
                s.as_str().substring_char(i + 1, n).to_owned()
            } else {
                String::new()
            };
            proof {
                assert(name@ =~= line_name(s@));
                if requires_secret {
                    assert(secret@ =~= line_secret(s@));
                }
            }
            Ok((name, secret))
        },
    }
}

/// Parses the destination-service line of a credentials file: after its
/// surrounding white space is removed, exactly two non-empty tokens around a
/// single `':'`.
pub fn parse_dest_line(line: &str) -> (r: Result<(String, String), CredentialsError>)
    ensures
        r is Ok <==> two_token_line(trim_ws(line@)),
        r matches Ok(p) ==> p.0@ == line_name(trim_ws(line@)),
        r matches Ok(p) ==> p.1@ == line_secret(trim_ws(line@)),
        r matches Err(e) ==> e == CredentialsError::MalformedDestinationLine,
{
    let s = trim_whitespace(line);
    let n = s.as_str().unicode_len();
    match find_first_colon(s.as_str()) {
        None => Err(CredentialsError::MalformedDestinationLine),
        Some(i) => {
            if i == 0 || i + 1 >= n {
                return Err(CredentialsError::MalformedDestinationLine);
            }
            if rest_has_colon(s.as_str(), i + 1) {
                return Err(CredentialsError::MalformedDestinationLine);
            }
            let name = s.as_str().substring_char(0, i).to_owned();
            let secret = s.as_str().substring_char(i + 1, n).to_owned();
            proof {
                assert(name@ =~= line_name(s@));
                assert(secret@ =~= line_secret(s@));
            }
            Ok((name, secret))
        },
    }
}

/// Resolves credentials from the two lines of a credentials file, each taken
/// with its surrounding white space removed. The source line is checked
/// first, so a file with two bad lines names the source line.
pub fn resolve_file_credentials(
    source_line: &str,
    dest_line: &str,
    requires_source_secret: bool,
) -> (r: Result<Credentials, CredentialsError>)
    ensures
        r is Ok <==> source_line_ok(trim_ws(source_line@), requires_source_secret)
            && two_token_line(trim_ws(dest_line@)),
        r matches Ok(c) ==> {
            &&& c.source_user@ == line_name(trim_ws(source_line@))
            &&& c.source_secret@ == if requires_source_secret {
                line_secret(trim_ws(source_line@))
            } else {
                Seq::<char>::empty()
            }
            &&& c.dest_user@ == line_name(trim_ws(dest_line@))
            &&& c.dest_secret@ == line_secret(trim_ws(dest_line@))
        },
        r matches Err(e) ==> if source_line_ok(trim_ws(source_line@), requires_source_secret) {
            e == CredentialsError::MalformedDestinationLine
        } else {
            e == CredentialsError::MalformedSourceLine
        },
{
    let (source_user, source_secret) = match parse_source_line(source_line, requires_source_secret)
        {
        Ok(p) => p,
        Err(e) => {
            return Err(e);
        },
    };
    let (dest_user, dest_secret) = match parse_dest_line(dest_line) {
        Ok(p) => p,
        Err(e) => {
            return Err(e);
        },
    };
    Ok(Credentials { source_user, source_secret, dest_user, dest_secret })
}

/// Assembles credentials from four interactively prompted lines, stripping
/// one trailing line ending from each. Empty answers are accepted as given:
/// validating them is the caller's responsibility.
pub fn credentials_from_prompts(
    source_user: &str,
    source_secret: &str,
    dest_user: &str,
    dest_secret: &str,
) -> (r: Credentials)
    ensures
        r.source_user@ == strip_eol(source_user@),
        r.source_secret@ == strip_eol(source_secret@),
        r.dest_user@ == strip_eol(dest_user@),
        r.dest_secret@ == strip_eol(dest_secret@),
{
    Credentials {
        source_user: strip_line_ending(source_user),
        source_secret: strip_line_ending(source_secret),
        dest_user: strip_line_ending(dest_user),
        dest_secret: strip_line_ending(dest_secret),
    }
}

} // verus!
