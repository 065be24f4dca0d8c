//! Resolution of the command's three inputs: message, secret URI, password.
//!
//! Each input comes either from a command-line flag or from a fallback the
//! host program supplies as a plain value (standard input, a file's
//! contents, an interactively entered line). The policy choosing between
//! them is verified; the host only gathers the raw values.

use vstd::prelude::*;
use vstd::string::StrSliceExecFns;
use crate::errors::Error;
use crate::hexcode::{hex_decode, hex_decoding, valid_hex};

verus! {

/// The message bytes before hex interpretation: the flag's UTF-8 bytes if a
/// flag was given, otherwise whatever standard input held.
pub open spec fn raw_message(flag: Option<Seq<char>>, stdin: Option<Seq<u8>>) -> Result<
    Seq<u8>,
    Error,
> {
    match flag {
        Some(m) => Ok(vstd::utf8::encode_utf8(m)),
        None => match stdin {
            Some(b) => Ok(b),
            None => Err(Error::IoError),
        },
    }
}

/// The raw bytes after hex interpretation: decoded when the hex flag is set
/// (rejecting anything that is not well-formed hex), unchanged otherwise.
pub open spec fn decoded_message(raw: Seq<u8>, hex_flag: bool) -> Result<Seq<u8>, Error> {
    if hex_flag {
        if valid_hex(raw) {
            Ok(hex_decoding(raw))
        } else {
            Err(Error::InvalidInput)
        }
    } else {
        Ok(raw)
    }
}

/// The message the command signs, or the first error in resolving it.
pub open spec fn message_resolution(
    flag: Option<Seq<char>>,
    hex_flag: bool,
    stdin: Option<Seq<u8>>,
) -> Result<Seq<u8>, Error> {
    match raw_message(flag, stdin) {
        Ok(raw) => decoded_message(raw, hex_flag),
        Err(e) => Err(e),
    }
}

/// Resolve the message to sign.
///
/// `stdin` is what the host read from standard input (`None` if the stream
/// could not be read); it is consulted only when no message flag was given.
pub fn resolve_message(flag: Option<String>, hex_flag: bool, stdin: Option<Vec<u8>>) -> (r: Result<
    Vec<u8>,
    Error,
>)
    ensures
        match r {
            Ok(v) => message_resolution(flag.deep_view(), hex_flag, stdin.deep_view()) == Ok::<
                Seq<u8>,
                Error,
            >(v@),
            Err(e) => message_resolution(flag.deep_view(), hex_flag, stdin.deep_view()) == Err::<
                Seq<u8>,
                Error,
            >(e),
        },
{
    match &flag {
        Some(m) => {
            let raw = m.as_str().as_bytes_vec();
            if hex_flag {
                hex_decode(raw.as_slice())
            } else {
                Ok(raw)
            }
        },
        None => {
            let ghost sv = stdin.deep_view();
            match stdin {
                Some(b) => {
                    proof {
                        assert(sv == Some(b@));
                    }
                    if hex_flag {
                        hex_decode(b.as_slice())
                    } else {
                        Ok(b)
                    }
                },
                None => Err(Error::IoError),
            }
        },
    }
}

/// A character trimmed from the end of a secret-URI file: blank, tab,
/// newline or carriage return.
pub open spec fn is_uri_whitespace(c: char) -> bool {
    c == ' ' || c == '\t' || c == '\n' || c == '\r'
}

/// A character sequence with its trailing whitespace removed.
pub open spec fn trimmed_end(s: Seq<char>) -> Seq<char>
    decreases s.len(),
{
    if s.len() > 0 && is_uri_whitespace(s.last()) {
        trimmed_end(s.drop_last())
    } else {
        s
    }
}

fn is_whitespace_char(c: char) -> (r: bool)
    ensures
        r == is_uri_whitespace(c),
{
    c == ' ' || c == '\t' || c == '\n' || c == '\r'
}

/// Remove trailing whitespace, as from the contents of a secret-URI file.
pub fn trim_end_whitespace(s: &str) -> (r: String)
    ensures
        r@ == trimmed_end(s@),
{
    let len = s.unicode_len();
    let mut end = len;
    proof {
        assert(s@.subrange(0, len as int) =~= s@);
    }
    while end > 0 && is_whitespace_char(s.get_char(end - 1))
        invariant
            end <= s@.len(),
            len == s@.len(),
            trimmed_end(s@) == trimmed_end(s@.subrange(0, end as int)),
        decreases end,
    {
        proof {
            let p = s@.subrange(0, end as int);
            assert(p.last() == s@[end - 1]);
            assert(p.drop_last() =~= s@.subrange(0, end - 1));
        }
        end -= 1;
    }
    let out = s.substring_char(0, end);
    proof {
        let p = s@.subrange(0, end as int);
        if end > 0 {
            assert(p.last() == s@[end - 1]);
        }
        assert(trimmed_end(p) == p);
    }
    out.to_owned()
}

/// The secret URI the command uses, or the first error in resolving it: the
/// trimmed contents of the file the flag named, else the flag itself, else a
/// non-empty interactively entered value.
pub open spec fn uri_resolution(
    flag: Option<Seq<char>>,
    file: Option<Seq<char>>,
    prompted: Option<Seq<char>>,
) -> Result<Seq<char>, Error> {
    match flag {
        Some(u) => match file {
            Some(contents) => Ok(trimmed_end(contents)),
            None => Ok(u),
        },
        None => match prompted {
            Some(p) => if p.len() == 0 {
                Err(Error::InvalidInput)
            } else {
                Ok(p)
            },
            None => Err(Error::PromptError),
        },
    }
}

/// Resolve the secret URI.
///
/// `file` is the contents of the file the flag named, if the flag named a
/// readable file; `prompted` is what the host read from a hidden prompt
/// (`None` if prompting failed), consulted only when no flag was given.
pub fn resolve_uri(flag: Option<String>, file: Option<String>, prompted: Option<String>) -> (r:
    Result<String, Error>)
    ensures
        match r {
            Ok(u) => uri_resolution(flag.deep_view(), file.deep_view(), prompted.deep_view())
                == Ok::<Seq<char>, Error>(u@),
            Err(e) => uri_resolution(flag.deep_view(), file.deep_view(), prompted.deep_view())
                == Err::<Seq<char>, Error>(e),
        },
{
    match flag {
        Some(u) => match file {
            Some(contents) => Ok(trim_end_whitespace(contents.as_str())),
            None => Ok(u),
        },
        None => match prompted {
            Some(p) => {
                if p.as_str().is_empty() {
                    Err(Error::InvalidInput)
                } else {
                    Ok(p)
                }
            },
            None => Err(Error::PromptError),
        },
    }
}

/// The password the command uses: the interactively entered one when the
/// interactive flag is set, else the configured one, else empty.
pub open spec fn password_resolution(
    password: Option<Seq<char>>,
    interactive: bool,
    prompted: Option<Seq<char>>,
) -> Result<Seq<char>, Error> {
    if interactive {
        match prompted {
            Some(p) => Ok(p),
            None => Err(Error::PromptError),
        }
    } else {
        match password {
            Some(p) => Ok(p),
            None => Ok(Seq::empty()),
        }
    }
}

/// Resolve the password.
///
/// `prompted` is what the host read from a hidden prompt (`None` if
/// prompting failed), consulted only when the interactive flag is set.
pub fn resolve_password(password: Option<String>, interactive: bool, prompted: Option<String>) -> (r:
    Result<String, Error>)
    ensures
        match r {
            Ok(p) => password_resolution(password.deep_view(), interactive, prompted.deep_view())
                == Ok::<Seq<char>, Error>(p@),
            Err(e) => password_resolution(password.deep_view(), interactive, prompted.deep_view())
                == Err::<Seq<char>, Error>(e),
        },
{
    if interactive {
        match prompted {
            Some(p) => Ok(p),
            None => Err(Error::PromptError),
        }
    } else {
        match password {
            Some(p) => Ok(p),
            None => {
                let empty = String::new();
                proof {
                    assert(empty@ =~= Seq::<char>::empty());
                }
                Ok(empty)
            },
        }
    }
}

} // verus!
