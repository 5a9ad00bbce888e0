//! Toolchain platforms: which one is in effect, and what running under it
//! means for the search path and for the error reported on failure.

use vstd::prelude::*;

verus! {

/// A released version of a tool.
#[derive(Clone, Copy, Debug, PartialEq, Eq, Structural)]
pub struct Version {
    pub major: u64,
    pub minor: u64,
    pub patch: u64,
}

/// Where a platform comes from.
#[derive(Clone, Copy, Debug, PartialEq, Eq, Structural)]
pub enum Provenance {
    /// The user-wide fallback.
    UserDefault,
    /// The pin of the project in the working directory.
    ProjectPinned,
}

/// A snapshot of the resolved toolchain versions.
#[derive(Clone, Copy, Debug, PartialEq, Eq)]
pub struct Platform {
    pub node: Version,
    pub npm: Option<Version>,
    pub yarn: Option<Version>,
    pub provenance: Provenance,
}

/// What to report when the launched binary fails.
#[derive(Clone, Copy, Debug, PartialEq, Eq, Structural)]
pub enum ErrorKind {
    /// A binary of a specific toolchain was run and failed.
    BinaryExecError,
    /// No platform was configured, and the binary found on the system search
    /// path failed.
    NoPlatform,
}

/// Where the search path of a launch comes from.
#[derive(Clone, Copy, Debug, PartialEq, Eq)]
pub enum PathSource {
    /// The binaries of the given platform, checked out.
    Image(Platform),
    /// The system-wide search path.
    System,
}

impl Platform {
    /// The same versions, held as the user-wide default.
    pub open spec fn spec_as_default(self) -> Platform {
        Platform { provenance: Provenance::UserDefault, ..self }
    }

    /// The same versions, held as the project's pin.
    pub open spec fn spec_as_project(self) -> Platform {
        Platform { provenance: Provenance::ProjectPinned, ..self }
    }

    /// The same versions, held as the user-wide default.
    #[verifier::when_used_as_spec(spec_as_default)]
    pub fn as_default(self) -> (platform: Platform)
        ensures
            platform == self.spec_as_default(),
    {
        Platform {
            node: self.node,
            npm: self.npm,
            yarn: self.yarn,
            provenance: Provenance::UserDefault,
        }
    }

    /// The same versions, held as the project's pin.
    #[verifier::when_used_as_spec(spec_as_project)]
    pub fn as_project(self) -> (platform: Platform)
        ensures
            platform == self.spec_as_project(),
    {
        Platform {
            node: self.node,
            npm: self.npm,
            yarn: self.yarn,
            provenance: Provenance::ProjectPinned,
        }
    }
}

/// The platform in effect: the project's pin where there is one, else the
/// user-wide default, else none.
pub open spec fn effective_platform(
    project: Option<Platform>,
    default: Option<Platform>,
) -> Option<Platform> {
    match project {
        Some(pinned) => Some(pinned.as_project()),
        None => match default {
            Some(fallback) => Some(fallback.as_default()),
            None => None,
        },
    }
}

/// The search path that a launch under the given platform needs.
pub open spec fn path_source_for(platform: Option<Platform>) -> PathSource {
    match platform {
        Some(active) => PathSource::Image(active),
        None => PathSource::System,
    }
}

/// The error that a failed launch under the given platform reports.
pub open spec fn failure_kind_for(platform: Option<Platform>) -> ErrorKind {
    match platform {
        Some(_) => ErrorKind::BinaryExecError,
        None => ErrorKind::NoPlatform,
    }
}

/// A launch without a platform always reports that none is configured, and
/// a launch under a platform always reports that the binary failed.
pub proof fn lemma_failure_kind_tells_platform(platform: Option<Platform>)
    ensures
        failure_kind_for(platform) == ErrorKind::NoPlatform <==> platform is None,
        failure_kind_for(platform) == ErrorKind::BinaryExecError <==> platform is Some,
        path_source_for(platform) is System <==> platform is None,
{
}

/// Resolves the platform in effect from what the project pins and what the
/// user has set as default.
pub fn current_platform(
    project: Option<Platform>,
    default: Option<Platform>,
) -> (current: Option<Platform>)
    ensures
        current == effective_platform(project, default),
{
    match project {
        Some(pinned) => Some(pinned.as_project()),
        None => match default {
            Some(fallback) => Some(fallback.as_default()),
            None => None,
        },
    }
}

/// Says which search path the launch under `platform` needs: the checked-out
/// binaries of the platform, or the system's own path where there is none.
pub fn path_source(platform: Option<Platform>) -> (source: PathSource)
    ensures
        source == path_source_for(platform),
{
    match platform {
        Some(active) => PathSource::Image(active),
        None => PathSource::System,
    }
}

/// Pairs the search path obtained for `platform` with the error to report if
/// the launched binary fails. A failure to obtain the path is handed on as it
/// came.
pub fn execution_context<E>(
    platform: Option<Platform>,
    search_path: Result<Vec<u8>, E>,
) -> (context: Result<(Vec<u8>, ErrorKind), E>)
    ensures
        context == match search_path {
            Ok(path) => Ok((path, failure_kind_for(platform))),
            Err(e) => Err(e),
        },
{
    match search_path {
        Ok(path) => {
            let kind = match platform {
                Some(_) => ErrorKind::BinaryExecError,
                None => ErrorKind::NoPlatform,
            };
            Ok((path, kind))
        },
        Err(e) => Err(e),
    }
}

} // verus!
