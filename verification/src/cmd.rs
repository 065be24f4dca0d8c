//! The `sign` command: resolve inputs, sign, render the signature as hex.

use vstd::prelude::*;
use crate::errors::Error;
use crate::hexcode::{ascii_chars, hex_encoding, hex_string};
use crate::resolve::{
    message_resolution, password_resolution, resolve_message, resolve_password, resolve_uri,
    uri_resolution,
};
use crate::signer::{
    deterministic_scheme, scheme_public, scheme_sig_good, scheme_sig_len, scheme_signature,
    scheme_suri_valid, sign_with_scheme, CryptoScheme,
};

verus! {

/// Parameters shared with the surrounding command-line tool: the signature
/// scheme and the password policy.
pub struct SharedParams {
    /// The signature scheme to use.
    pub scheme: CryptoScheme,
    /// The configured password, if any.
    pub password: Option<String>,
    /// Ask for the password interactively instead.
    pub password_interactive: bool,
}

/// What the host program gathered from the outside world for one run:
/// plain values only, so the policy that chooses among them is verified.
pub struct HostInput {
    /// All of standard input, when it was read (`None` when reading failed
    /// or was not attempted because a message flag was given).
    pub stdin: Option<Vec<u8>>,
    /// The contents of the file the URI flag named, when the flag named a
    /// readable file.
    pub suri_file: Option<String>,
    /// The URI entered at a hidden prompt (`None` when prompting failed or
    /// was not attempted because a URI flag was given).
    pub prompted_suri: Option<String>,
    /// The password entered at a hidden prompt (`None` when prompting
    /// failed or was not attempted).
    pub prompted_password: Option<String>,
}

/// The `sign` command: sign a message with a given (secret) key.
pub struct SignCmd {
    /// The secret key URI; if it names a file, the file's trimmed contents
    /// are the URI; prompted for when absent.
    pub suri: Option<String>,
    /// The message to sign; read from standard input when absent.
    pub message: Option<String>,
    /// The message (flag or standard input) is hex-encoded data.
    pub hex: bool,
    /// The shared parameters.
    pub shared_params: SharedParams,
}

impl SignCmd {
    /// Run the command: resolve the message, the secret URI and the
    /// password, sign, and return the line to print — the signature as
    /// lowercase hex.
    ///
    /// The first failing resolution step decides the error; with all three
    /// resolved, the run succeeds exactly when the URI derives a keypair
    /// under the scheme, the rendered signature verifies under the derived
    /// public key, and for the deterministic schemes it is the one
    /// signature the inputs determine. Nothing is returned on failure, so
    /// no partial output can be printed.
    pub fn run(self, host: HostInput) -> (r: Result<String, Error>)
        ensures
            ({
                let m = message_resolution(
                    self.message.deep_view(),
                    self.hex,
                    host.stdin.deep_view(),
                );
                let u = uri_resolution(
                    self.suri.deep_view(),
                    host.suri_file.deep_view(),
                    host.prompted_suri.deep_view(),
                );
                let p = password_resolution(
                    self.shared_params.password.deep_view(),
                    self.shared_params.password_interactive,
                    host.prompted_password.deep_view(),
                );
                let scheme = self.shared_params.scheme;
                &&& (m is Err ==> r is Err && r->Err_0 == m->Err_0)
                &&& (m is Ok && u is Err ==> r is Err && r->Err_0 == u->Err_0)
                &&& (m is Ok && u is Ok && p is Err ==> r is Err && r->Err_0 == p->Err_0)
                &&& (m is Ok && u is Ok && p is Ok ==> {
                    &&& (r is Ok <==> scheme_suri_valid(scheme, u->Ok_0, p->Ok_0))
                    &&& (r is Err ==> r->Err_0 == Error::InvalidSecret)
                    &&& (r is Ok ==> exists|sig: Seq<u8>|
                        {
                            &&& #[trigger] scheme_sig_good(
                                scheme,
                                scheme_public(scheme, u->Ok_0, p->Ok_0),
                                m->Ok_0,
                                sig,
                            )
                            &&& sig.len() == scheme_sig_len(scheme)
                            &&& r->Ok_0@ == ascii_chars(hex_encoding(sig))
                        })
                    &&& (r is Ok && deterministic_scheme(scheme) ==> r->Ok_0@ == ascii_chars(
                        hex_encoding(scheme_signature(scheme, u->Ok_0, p->Ok_0, m->Ok_0)),
                    ))
                })
            }),
    {
        let ghost mres = message_resolution(
            self.message.deep_view(),
            self.hex,
            host.stdin.deep_view(),
        );
        let ghost ures = uri_resolution(
            self.suri.deep_view(),
            host.suri_file.deep_view(),
            host.prompted_suri.deep_view(),
        );
        let ghost pres = password_resolution(
            self.shared_params.password.deep_view(),
            self.shared_params.password_interactive,
            host.prompted_password.deep_view(),
        );
        let scheme = self.shared_params.scheme;
        let message = match resolve_message(self.message, self.hex, host.stdin) {
            Ok(v) => v,
            Err(e) => {
                return Err(e);
            },
        };
        let suri = match resolve_uri(self.suri, host.suri_file, host.prompted_suri) {
            Ok(v) => v,
            Err(e) => {
                return Err(e);
            },
        };
        let password = match resolve_password(
            self.shared_params.password,
            self.shared_params.password_interactive,
            host.prompted_password,
        ) {
            Ok(v) => v,
            Err(e) => {
                return Err(e);
            },
        };
        proof {
            assert(mres == Ok::<Seq<u8>, Error>(message@));
            assert(ures == Ok::<Seq<char>, Error>(suri@));
            assert(pres == Ok::<Seq<char>, Error>(password@));
        }
        let signature = match sign_with_scheme(
            scheme,
            suri.as_str(),
            password.as_str(),
            message.as_slice(),
        ) {
            Ok(v) => v,
            Err(e) => {
                return Err(e);
            },
        };
        let line = hex_string(signature.as_slice());
        proof {
            assert(scheme_sig_good(
                scheme,
                scheme_public(scheme, ures->Ok_0, pres->Ok_0),
                mres->Ok_0,
                signature@,
            ));
            assert(exists|sig: Seq<u8>|
                {
                    &&& #[trigger] scheme_sig_good(
                        scheme,
                        scheme_public(scheme, ures->Ok_0, pres->Ok_0),
                        mres->Ok_0,
                        sig,
                    )
                    &&& sig.len() == scheme_sig_len(scheme)
                    &&& line@ == ascii_chars(hex_encoding(sig))
                });
        }
        Ok(line)
    }
}

} // verus!
