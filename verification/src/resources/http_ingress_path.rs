//! An ingress path and the backend it forwards to.

use vstd::prelude::*;

use crate::deep_merge::DeepMerge;
use crate::resources::common::{IngressBackend, IngressBackendView};

verus! {

/// HTTPIngressPath associates a path with a backend; requests matching the
/// path are forwarded to the backend.
#[derive(Debug, Clone, PartialEq)]
pub struct HTTPIngressPath {
    /// The referenced service endpoint.
    pub backend: IngressBackend,
    /// The path matched against incoming requests.
    pub path: Option<String>,
}

/// The mathematical shape of an [`HTTPIngressPath`].
pub struct HTTPIngressPathView {
    pub backend: IngressBackendView,
    pub path: Option<Seq<char>>,
}

impl DeepView for HTTPIngressPath {
    type V = HTTPIngressPathView;

    open spec fn deep_view(&self) -> HTTPIngressPathView {
        HTTPIngressPathView {
            backend: self.backend.deep_view(),
            path: self.path.deep_view(),
        }
    }
}

impl DeepMerge for HTTPIngressPath {
    open spec fn merged_view(pre: HTTPIngressPathView, other: HTTPIngressPathView) -> HTTPIngressPathView {
        HTTPIngressPathView {
            backend: IngressBackend::merged_view(pre.backend, other.backend),
            path: <Option<String> as DeepMerge>::merged_view(pre.path, other.path),
        }
    }

    fn merge_from(&mut self, other: Self) {
        self.backend.merge_from(other.backend);
        self.path.merge_from(other.path);
    }
}

} // verus!
