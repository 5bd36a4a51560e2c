//! The context of an analysis: what is being processed, for whom, and where
//! it came from.
use crate::artifact::{Artifact, ArtifactView};
use vstd::prelude::*;
use vstd::string::*;

verus! {

/// The context of the analysis: the artifact being processed, the name of
/// the machine where the artifacts came from and the name of the
/// client/tenant.
#[derive(Debug)]
pub struct ForensicContext {
    pub host: String,
    pub artifact: Artifact,
    pub tenant: String,
}

/// What a context holds, as plain values.
pub struct ForensicContextView {
    pub host: Seq<char>,
    pub artifact: ArtifactView,
    pub tenant: Seq<char>,
}

impl View for ForensicContext {
    type V = ForensicContextView;

    open spec fn view(&self) -> ForensicContextView {
        ForensicContextView { host: self.host@, artifact: self.artifact@, tenant: self.tenant@ }
    }
}

impl Default for ForensicContext {
    /// The context of no host and no tenant, with an unknown artifact.
    fn default() -> (c: Self)
        ensures
            c@ == (ForensicContextView {
                host: Seq::<char>::empty(),
                artifact: ArtifactView::Unknown,
                tenant: Seq::<char>::empty(),
            }),
    {
        ForensicContext { host: String::new(), artifact: Artifact::Unknown, tenant: String::new() }
    }
}

impl Clone for ForensicContext {
    fn clone(&self) -> (c: Self)
        ensures
            c@ == self@,
    {
        ForensicContext {
            host: self.host.clone(),
            artifact: self.artifact.clone(),
            tenant: self.tenant.clone(),
        }
    }
}

impl ForensicContext {
    /// Changes the type of artifact being processed
    pub fn set_artifact(&mut self, artifact: Artifact)
        ensures
            final(self)@ == (ForensicContextView { artifact: artifact@, ..old(self)@ }),
    {
        self.artifact = artifact;
    }

    /// Change the tenant ID for which artifacts are being processed
    pub fn set_tenant(&mut self, tenant: String)
        ensures
            final(self)@ == (ForensicContextView { tenant: tenant@, ..old(self)@ }),
    {
        self.tenant = tenant;
    }

    /// Change the name of the computer for which artifacts are being processed
    pub fn set_host(&mut self, host: String)
        ensures
            final(self)@ == (ForensicContextView { host: host@, ..old(self)@ }),
    {
        self.host = host;
    }
}

} // verus!
