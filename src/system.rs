use vstd::prelude::*;

verus! {

pub const PROJECT_VERSION_MAJOR: u64 = 0;

pub const PROJECT_VERSION_MINOR: u64 = 21;

pub const PROJECT_VERSION_PATCH: u64 = 0;

/// A version as major, minor and patch numbers.
#[derive(Clone, Copy, Debug, PartialEq, Eq, Structural)]
pub struct SystemVersion {
    pub major: u64,
    pub minor: u64,
    pub patch: u64,
}

/// The version of this build.
pub open spec fn project_version() -> SystemVersion {
    SystemVersion {
        major: PROJECT_VERSION_MAJOR,
        minor: PROJECT_VERSION_MINOR,
        patch: PROJECT_VERSION_PATCH,
    }
}

/// Answers version requests with a response built once, when the service is made.
pub struct SystemService {
    response: SystemVersion,
}

impl SystemService {
    #[verifier::type_invariant]
    spec fn inv(&self) -> bool {
        self.response == project_version()
    }

    pub fn new() -> (r: SystemService) {
        SystemService {
            response: SystemVersion {
                major: PROJECT_VERSION_MAJOR,
                minor: PROJECT_VERSION_MINOR,
                patch: PROJECT_VERSION_PATCH,
            },
        }
    }

    /// The running build's version. Every call on every service returns the
    /// same value.
    pub fn get_version(&self) -> (r: SystemVersion)
        ensures
            r == project_version(),
    {
        proof {
            use_type_invariant(self);
        }
        self.response
    }
}

} // verus!
