//! Client-authentication policy.

use vstd::prelude::*;

verus! {

/// How the server treats client certificates during the handshake.
#[derive(Clone, Copy, Debug, PartialEq, Eq, Structural)]
pub enum ClientAuthMode {
    /// No client certificate is requested.
    NoAuthentication,
    /// A certificate is requested; an anonymous client is still accepted.
    OptionalAuthenticated,
    /// A verifiable client certificate is required.
    MandatoryAuthenticated,
}

/// The mode that follows from whether trust anchors were supplied and from the
/// "mandatory" flag.
pub open spec fn resolved_mode(anchors_present: bool, mandatory: bool) -> ClientAuthMode {
    if !anchors_present {
        ClientAuthMode::NoAuthentication
    } else if mandatory {
        ClientAuthMode::MandatoryAuthenticated
    } else {
        ClientAuthMode::OptionalAuthenticated
    }
}

impl ClientAuthMode {
    /// Resolves the mode from the two configuration inputs that decide it.
    pub fn resolve(anchors_present: bool, mandatory: bool) -> (mode: ClientAuthMode)
        ensures
            mode == resolved_mode(anchors_present, mandatory),
    {
        if !anchors_present {
            ClientAuthMode::NoAuthentication
        } else if mandatory {
            ClientAuthMode::MandatoryAuthenticated
        } else {
            ClientAuthMode::OptionalAuthenticated
        }
    }
}

/// The mode depends on nothing but the two inputs: without trust anchors no
/// client certificate is requested, whatever the flag says; with them the flag
/// alone decides between optional and mandatory.
pub proof fn lemma_mode_resolution(anchors_present: bool, mandatory: bool)
    ensures
        !anchors_present ==> resolved_mode(anchors_present, mandatory)
            == ClientAuthMode::NoAuthentication,
        anchors_present && !mandatory ==> resolved_mode(anchors_present, mandatory)
            == ClientAuthMode::OptionalAuthenticated,
        anchors_present && mandatory ==> resolved_mode(anchors_present, mandatory)
            == ClientAuthMode::MandatoryAuthenticated,
        resolved_mode(anchors_present, mandatory) != ClientAuthMode::NoAuthentication
            <==> anchors_present,
{
}

} // verus!
