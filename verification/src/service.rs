//! The services a request may name, and the one place that decides whether a
//! token names a supported service.

use vstd::prelude::*;
use crate::text::str_eq;

verus! {

/// Which endpoint a service token arrived on.
#[derive(Clone, Copy, Debug, PartialEq, Eq, Structural)]
pub enum Mode {
    /// The ref advertisement (`GET .../info/refs?service=<token>`).
    Advertise,
    /// The stateless RPC (`POST .../<token>`).
    Exec,
}

/// A supported service together with the endpoint it was asked on.
#[derive(Clone, Copy, Debug, PartialEq, Eq, Structural)]
pub enum Service {
    AdvertiseUploadPack,
    AdvertiseReceivePack,
    ExecUploadPack,
    ExecReceivePack,
}

/// The token names no supported service.
#[derive(Clone, Copy, Debug, PartialEq, Eq, Structural)]
pub struct UnknownService;

impl Service {
    /// The endpoint this service belongs to.
    pub open spec fn spec_mode(self) -> Mode {
        match self {
            Service::AdvertiseUploadPack | Service::AdvertiseReceivePack => Mode::Advertise,
            Service::ExecUploadPack | Service::ExecReceivePack => Mode::Exec,
        }
    }

    /// Whether this is the fetch side (`upload-pack`) rather than the push
    /// side (`receive-pack`).
    pub open spec fn spec_is_upload(self) -> bool {
        self == Service::AdvertiseUploadPack || self == Service::ExecUploadPack
    }

    /// The backend subcommand: `upload-pack` or `receive-pack`.
    pub open spec fn spec_name(self) -> Seq<char> {
        if self.spec_is_upload() {
            "upload-pack"@
        } else {
            "receive-pack"@
        }
    }

    /// The token a client sends for this service: `git-upload-pack` or
    /// `git-receive-pack`.
    pub open spec fn spec_token(self) -> Seq<char> {
        if self.spec_is_upload() {
            "git-upload-pack"@
        } else {
            "git-receive-pack"@
        }
    }

    #[verifier::when_used_as_spec(spec_mode)]
    pub fn mode(self) -> (mode: Mode)
        ensures
            mode == self.spec_mode(),
    {
        match self {
            Service::AdvertiseUploadPack | Service::AdvertiseReceivePack => Mode::Advertise,
            Service::ExecUploadPack | Service::ExecReceivePack => Mode::Exec,
        }
    }

    #[verifier::when_used_as_spec(spec_is_upload)]
    pub fn is_upload(self) -> (upload: bool)
        ensures
            upload == self.spec_is_upload(),
    {
        match self {
            Service::AdvertiseUploadPack | Service::ExecUploadPack => true,
            Service::AdvertiseReceivePack | Service::ExecReceivePack => false,
        }
    }

    /// The backend subcommand: `upload-pack` or `receive-pack`.
    pub fn name(self) -> (name: &'static str)
        ensures
            name@ == self.spec_name(),
    {
        if self.is_upload() {
            "upload-pack"
        } else {
            "receive-pack"
        }
    }

    /// The token a client sends for this service.
    pub fn token(self) -> (token: &'static str)
        ensures
            token@ == self.spec_token(),
    {
        if self.is_upload() {
            "git-upload-pack"
        } else {
            "git-receive-pack"
        }
    }
}

/// The service that `token` names on the endpoint `mode`, if any. A token
/// names a service only by being equal to it, character for character.
pub open spec fn resolution(token: Seq<char>, mode: Mode) -> Option<Service> {
    if token == "git-upload-pack"@ {
        Some(
            match mode {
                Mode::Advertise => Service::AdvertiseUploadPack,
                Mode::Exec => Service::ExecUploadPack,
            },
        )
    } else if token == "git-receive-pack"@ {
        Some(
            match mode {
                Mode::Advertise => Service::AdvertiseReceivePack,
                Mode::Exec => Service::ExecReceivePack,
            },
        )
    } else {
        None
    }
}

/// Resolves the service token of a request: the `service` query parameter
/// of the advertisement, or the last path segment of the RPC.
pub fn resolve(raw_token: &str, mode: Mode) -> (resolved: Result<Service, UnknownService>)
    ensures
        resolved == match resolution(raw_token@, mode) {
            Some(service) => Ok::<Service, UnknownService>(service),
            None => Err(UnknownService),
        },
{
    if str_eq(raw_token, "git-upload-pack") {
        match mode {
            Mode::Advertise => Ok(Service::AdvertiseUploadPack),
            Mode::Exec => Ok(Service::ExecUploadPack),
        }
    } else if str_eq(raw_token, "git-receive-pack") {
        match mode {
            Mode::Advertise => Ok(Service::AdvertiseReceivePack),
            Mode::Exec => Ok(Service::ExecReceivePack),
        }
    } else {
        Err(UnknownService)
    }
}

/// A service's token is the fixed prefix `git-` followed by its name.
pub proof fn lemma_token_is_prefixed_name(service: Service)
    ensures
        service.spec_token() == "git-"@ + service.spec_name(),
{
    reveal_strlit("git-");
    reveal_strlit("upload-pack");
    reveal_strlit("receive-pack");
    reveal_strlit("git-upload-pack");
    reveal_strlit("git-receive-pack");
    assert(service.spec_token() =~= "git-"@ + service.spec_name());
}

/// Every service is found again from its own token on its own endpoint, and
/// on the other endpoint the same token gives the same kind of service.
pub proof fn lemma_resolution_of_token(service: Service, mode: Mode)
    ensures
        resolution(service.spec_token(), mode) matches Some(found)
            && found.spec_mode() == mode
            && found.spec_is_upload() == service.spec_is_upload(),
        resolution(service.spec_token(), service.spec_mode()) == Some(service),
{
    reveal_strlit("git-upload-pack");
    reveal_strlit("git-receive-pack");
    assert("git-upload-pack"@.len() != "git-receive-pack"@.len());
}

/// A token is resolved exactly when it is one of the two service tokens; any
/// other text, however close, is unknown.
pub proof fn lemma_resolution_is_exact(token: Seq<char>, mode: Mode)
    ensures
        resolution(token, mode) is Some <==> (token == "git-upload-pack"@ || token
            == "git-receive-pack"@),
        resolution(token, mode) matches Some(found) ==> found.spec_token() == token
            && found.spec_mode() == mode,
{
    reveal_strlit("git-upload-pack");
    reveal_strlit("git-receive-pack");
    assert("git-upload-pack"@.len() != "git-receive-pack"@.len());
}

} // verus!
