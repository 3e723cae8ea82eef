//! Parsing a Java runtime's self-reported version into a structured,
//! comparable form.
//!
//! The probe output (the text `java -version` writes on its diagnostic
//! stream) is handed in as a plain string; spawning the process is the
//! caller's concern.

use vstd::prelude::*;
use crate::error::{JavaError, JavaErrorKind};
use crate::text::{
    find_char_from, parse_u8_or_zero, spec_find_from, spec_parse_u8_or_zero, spec_split,
    spec_strip_char, spec_tokens, split_char, str_to_chars, strip_char, subrange_chars,
    whitespace_tokens,
};

verus! {

/// A Java version, as in version strings such as `1.8.0_292` or `17.0.1`.
#[derive(Debug, Clone, Copy, PartialEq, Eq, Structural)]
pub struct JavaVersion {
    pub major: u8,
    pub minor: u8,
    pub security: u8,
}

/// The first line of the probe output, as `str::lines` yields it: the text
/// before the first line feed, with a carriage return immediately before
/// that line feed dropped.
pub open spec fn spec_first_line(out: Seq<char>) -> Seq<char> {
    match spec_find_from(out, 0, '\n') {
        Some(i) => if i > 0 && out[i - 1] == '\r' {
            out.take(i - 1)
        } else {
            out.take(i)
        },
        None => out,
    }
}

/// The first token that opens with a double quote, if any.
pub open spec fn spec_first_quoted(ts: Seq<Seq<char>>) -> Option<Seq<char>>
    decreases ts.len(),
{
    if ts.len() == 0 {
        None
    } else if ts[0].len() > 0 && ts[0][0] == '"' {
        Some(ts[0])
    } else {
        spec_first_quoted(ts.drop_first())
    }
}

/// What parsing the probe output yields: `None` where the output is empty,
/// holds no quoted token, or the quoted token has fewer than three
/// dot-separated components; otherwise the version made of the first three
/// components, each read as a small unsigned integer with non-numeric
/// components read as zero.
pub open spec fn spec_version_from_output(out: Seq<char>) -> Option<JavaVersion> {
    if out.len() == 0 {
        None
    } else {
        match spec_first_quoted(spec_tokens(spec_first_line(out))) {
            None => None,
            Some(tok) => {
                let parts = spec_split(spec_strip_char(tok, '"'), '.');
                if parts.len() < 3 {
                    None
                } else {
                    Some(
                        JavaVersion {
                            major: spec_parse_u8_or_zero(parts[0]),
                            minor: spec_parse_u8_or_zero(parts[1]),
                            security: spec_parse_u8_or_zero(parts[2]),
                        },
                    )
                }
            },
        }
    }
}

/// The output is non-empty but none of the first line's tokens is quoted.
pub open spec fn spec_no_quoted_token(out: Seq<char>) -> bool {
    out.len() > 0 && spec_first_quoted(spec_tokens(spec_first_line(out))) is None
}

/// Finds the first token opening with a double quote.
fn first_quoted_token(tokens: &Vec<Vec<char>>) -> (r: Option<Vec<char>>)
    ensures
        r matches Some(t) ==> spec_first_quoted(tokens.deep_view()) == Some(t@),
        r is None ==> spec_first_quoted(tokens.deep_view()) is None,
{
    let mut t: usize = 0;
    proof {
        assert(tokens.deep_view().skip(0) =~~= tokens.deep_view());
    }
    while t < tokens.len()
        invariant
            t <= tokens.len(),
            spec_first_quoted(tokens.deep_view()) == spec_first_quoted(
                tokens.deep_view().skip(t as int),
            ),
        decreases tokens.len() - t,
    {
        proof {
            assert(tokens.deep_view().skip(t as int)[0] == tokens.deep_view()[t as int]);
            assert(tokens.deep_view().skip(t as int).drop_first() =~~= tokens.deep_view().skip(
                t + 1,
            ));
        }
        if tokens[t].len() > 0 && tokens[t][0] == '"' {
            let tok = subrange_chars(&tokens[t], 0, tokens[t].len());
            proof {
                assert(tok@ =~= tokens.deep_view()[t as int]);
            }
            return Some(tok);
        }
        t += 1;
    }
    proof {
        assert(tokens.deep_view().skip(tokens@.len() as int) =~~= Seq::<Seq<char>>::empty());
    }
    None
}

impl JavaVersion {
    /// Parses the diagnostic output of a `-version` probe: takes the first
    /// line, finds the quoted token, strips its quotes, splits it on `.`,
    /// and reads the first three components, non-numeric ones as zero.
    ///
    /// Fails with `OutputReadError` exactly when the output is empty, no
    /// quoted token exists, or fewer than three components are present.
    pub fn from_probe_output(output: &str) -> (r: Result<JavaVersion, JavaError>)
        ensures
            r matches Ok(v) ==> spec_version_from_output(output@) == Some(v),
            r matches Err(e) ==> spec_version_from_output(output@) is None && e.0
                == JavaErrorKind::OutputReadError,
            output@.len() == 0 ==> (r matches Err(e) && e.1 matches Some(d) && d@
                == "No client line"@),
            spec_no_quoted_token(output@) ==> (r matches Err(e) && e.1 matches Some(d) && d@
                == "Unable to get Java's version"@),
            spec_version_from_output(output@) matches Some(v) ==> r == Ok::<
                JavaVersion,
                JavaError,
            >(v),
    {
        let chars = str_to_chars(output);
        if chars.len() == 0 {
            return Err(
                JavaError::new_with_details(
                    JavaErrorKind::OutputReadError,
                    "No client line".to_owned(),
                ),
            );
        }
        let line: Vec<char> = match find_char_from(&chars, 0, '\n') {
            Some(i) => {
                proof {
                    crate::text::lemma_find_from_bounds(chars@, 0, '\n');
                }
                if i > 0 && chars[i - 1] == '\r' {
                    subrange_chars(&chars, 0, i - 1)
                } else {
                    subrange_chars(&chars, 0, i)
                }
            },
            None => subrange_chars(&chars, 0, chars.len()),
        };
        proof {
            assert(chars@.subrange(0, chars@.len() as int) =~= chars@);
            assert(line@ == spec_first_line(output@));
        }
        let tokens = whitespace_tokens(&line);
        let tok = match first_quoted_token(&tokens) {
            Some(tok) => tok,
            None => {
                proof {
                    assert(spec_first_quoted(spec_tokens(spec_first_line(output@))) is None);
                }
                return Err(
                    JavaError::new_with_details(
                        JavaErrorKind::OutputReadError,
                        "Unable to get Java's version".to_owned(),
                    ),
                );
            },
        };
        let stripped = strip_char(&tok, '"');
        let parts = split_char(&stripped, '.');
        if parts.len() < 3 {
            return Err(JavaError::new(JavaErrorKind::OutputReadError));
        }
        let major = parse_u8_or_zero(&parts[0]);
        let minor = parse_u8_or_zero(&parts[1]);
        let security = parse_u8_or_zero(&parts[2]);
        proof {
            assert(parts.deep_view()[0] == parts@[0]@);
            assert(parts.deep_view()[1] == parts@[1]@);
            assert(parts.deep_view()[2] == parts@[2]@);
        }
        Ok(JavaVersion { major, minor, security })
    }

    /// What [`JavaVersion::main_version`] returns: the minor number under
    /// the legacy `1.x` numbering, the major number otherwise.
    pub open spec fn spec_main_version(self) -> u8 {
        if self.major == 1 {
            self.minor
        } else {
            self.major
        }
    }

    /// The version people name: 8 for `1.8.0`, 17 for `17.0.1`, and so on.
    pub fn main_version(&self) -> (r: u8)
        ensures
            r == self.spec_main_version(),
    {
        if self.major == 1 {
            return self.minor;
        }
        self.major
    }
}

} // verus!
