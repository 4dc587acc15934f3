//! The permission gate: a policy object consulted by privileged built-ins
//! before each privileged operation, every time, never cached.
use vstd::prelude::*;

verus! {

/// The capability kinds that a gate decides on.
#[derive(Clone, Copy, Debug, PartialEq, Eq, Structural)]
pub enum Capability {
    HighResolutionTime,
    UnstableApi,
    Network,
    FilesystemRead,
}

/// A capability check that failed; visible to hosted script code as a
/// rejection.
#[derive(Clone, Debug)]
pub struct PermissionDenied {
    pub capability: Capability,
    /// The URL or path that was refused.
    pub target: String,
    /// The script API that asked.
    pub api_name: String,
}

/// A pluggable policy, one method per capability kind. Each check is a
/// synchronous, non-blocking query.
pub trait PermissionGate {
    spec fn hrtime_allowed(&self) -> bool;

    spec fn net_allowed(&self, url: Seq<char>) -> bool;

    spec fn read_allowed(&self, path: Seq<char>) -> bool;

    /// Whether hosted code may use high-resolution timers.
    fn allow_hrtime(&self) -> (r: bool)
        ensures
            r == self.hrtime_allowed(),
    ;

    /// Whether hosted code may use an unstable API; no policy here rejects.
    fn check_unstable(&self, api_name: &str);

    /// Consulted before every outbound network operation.
    fn check_net_url(&self, url: &str, api_name: &str) -> (r: Result<(), PermissionDenied>)
        ensures
            r is Ok <==> self.net_allowed(url@),
            r matches Err(e) ==> e.capability == Capability::Network && e.target@ == url@
                && e.api_name@ == api_name@,
    ;

    /// Consulted before every filesystem read that a built-in performs.
    fn check_read(&self, path: &str, api_name: &str) -> (r: Result<(), PermissionDenied>)
        ensures
            r is Ok <==> self.read_allowed(path@),
            r matches Err(e) ==> e.capability == Capability::FilesystemRead && e.target@ == path@
                && e.api_name@ == api_name@,
    ;
}

/// The minimal policy: grants every request. It is a placeholder and no
/// security boundary.
#[derive(Clone, Copy, Debug)]
pub struct AllowAllPermissions;

impl PermissionGate for AllowAllPermissions {
    open spec fn hrtime_allowed(&self) -> bool {
        true
    }

    open spec fn net_allowed(&self, url: Seq<char>) -> bool {
        true
    }

    open spec fn read_allowed(&self, path: Seq<char>) -> bool {
        true
    }

    fn allow_hrtime(&self) -> (r: bool) {
        true
    }

    fn check_unstable(&self, _api_name: &str) {
    }

    fn check_net_url(&self, _url: &str, _api_name: &str) -> (r: Result<(), PermissionDenied>) {
        Ok(())
    }

    fn check_read(&self, _path: &str, _api_name: &str) -> (r: Result<(), PermissionDenied>) {
        Ok(())
    }
}

/// Whether `s` is one of the strings of `list`.
pub open spec fn listed(list: Seq<String>, s: Seq<char>) -> bool {
    exists|i: int| 0 <= i < list.len() && #[trigger] list[i]@ == s
}

/// Tests whether `s` is one of the strings of `list`.
fn is_listed(list: &Vec<String>, s: &str) -> (r: bool)
    ensures
        r == listed(list@, s@),
{
    let target = s.to_owned();
    let mut i: usize = 0;
    while i < list.len()
        invariant
            i <= list@.len(),
            target@ == s@,
            forall|j: int| 0 <= j < i ==> #[trigger] list@[j]@ != s@,
        decreases list@.len() - i,
    {
        if list[i] == target {
            return true;
        }
        i = i + 1;
    }
    false
}

/// A policy that refuses the URLs and paths it lists and grants the rest.
#[derive(Clone, Debug)]
pub struct DenyListPermissions {
    pub hrtime: bool,
    pub denied_urls: Vec<String>,
    pub denied_paths: Vec<String>,
}

impl DenyListPermissions {
    /// A policy that refuses network access to each of `urls`.
    pub fn deny_urls(urls: Vec<String>) -> (r: DenyListPermissions)
        ensures
            r.hrtime,
            r.denied_urls@ == urls@,
            r.denied_paths@.len() == 0,
    {
        DenyListPermissions { hrtime: true, denied_urls: urls, denied_paths: Vec::new() }
    }
}

impl PermissionGate for DenyListPermissions {
    open spec fn hrtime_allowed(&self) -> bool {
        self.hrtime
    }

    open spec fn net_allowed(&self, url: Seq<char>) -> bool {
        !listed(self.denied_urls@, url)
    }

    open spec fn read_allowed(&self, path: Seq<char>) -> bool {
        !listed(self.denied_paths@, path)
    }

    fn allow_hrtime(&self) -> (r: bool) {
        self.hrtime
    }

    fn check_unstable(&self, _api_name: &str) {
    }

    fn check_net_url(&self, url: &str, api_name: &str) -> (r: Result<(), PermissionDenied>) {
        if is_listed(&self.denied_urls, url) {
            Err(
                PermissionDenied {
                    capability: Capability::Network,
                    target: url.to_owned(),
                    api_name: api_name.to_owned(),
                },
            )
        } else {
            Ok(())
        }
    }

    fn check_read(&self, path: &str, api_name: &str) -> (r: Result<(), PermissionDenied>) {
        if is_listed(&self.denied_paths, path) {
            Err(
                PermissionDenied {
                    capability: Capability::FilesystemRead,
                    target: path.to_owned(),
                    api_name: api_name.to_owned(),
                },
            )
        } else {
            Ok(())
        }
    }
}

} // verus!
