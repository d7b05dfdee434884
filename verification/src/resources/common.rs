//! Small structural types shared by several resources.

use vstd::prelude::*;

use crate::deep_merge::DeepMerge;

verus! {

/// A fixed-point or textual quantity, kept in its textual form.
#[derive(Debug, Clone, PartialEq)]
pub struct Quantity(pub String);

impl DeepView for Quantity {
    type V = Seq<char>;

    open spec fn deep_view(&self) -> Seq<char> {
        self.0@
    }
}

impl DeepMerge for Quantity {
    open spec fn merged_view(pre: Seq<char>, other: Seq<char>) -> Seq<char> {
        other
    }

    fn merge_from(&mut self, other: Self) {
        *self = other;
    }
}

/// A value that is written either as an integer or as text.
#[derive(Debug, Clone, PartialEq)]
pub enum IntOrString {
    Int(i32),
    Text(String),
}

/// The mathematical shape of an [`IntOrString`].
pub enum IntOrStringView {
    Int(i32),
    Text(Seq<char>),
}

impl DeepView for IntOrString {
    type V = IntOrStringView;

    open spec fn deep_view(&self) -> IntOrStringView {
        match self {
            IntOrString::Int(n) => IntOrStringView::Int(*n),
            IntOrString::Text(s) => IntOrStringView::Text(s@),
        }
    }
}

impl DeepMerge for IntOrString {
    open spec fn merged_view(pre: IntOrStringView, other: IntOrStringView) -> IntOrStringView {
        other
    }

    fn merge_from(&mut self, other: Self) {
        *self = other;
    }
}

/// A reference to another object, by kind, name and namespace.
#[derive(Debug, Clone, PartialEq)]
pub struct ObjectReference {
    pub api_version: Option<String>,
    pub field_path: Option<String>,
    pub kind: Option<String>,
    pub name: Option<String>,
    pub namespace: Option<String>,
    pub resource_version: Option<String>,
    pub uid: Option<String>,
}

/// The mathematical shape of an [`ObjectReference`].
pub struct ObjectReferenceView {
    pub api_version: Option<Seq<char>>,
    pub field_path: Option<Seq<char>>,
    pub kind: Option<Seq<char>>,
    pub name: Option<Seq<char>>,
    pub namespace: Option<Seq<char>>,
    pub resource_version: Option<Seq<char>>,
    pub uid: Option<Seq<char>>,
}

impl DeepView for ObjectReference {
    type V = ObjectReferenceView;

    open spec fn deep_view(&self) -> ObjectReferenceView {
        ObjectReferenceView {
            api_version: self.api_version.deep_view(),
            field_path: self.field_path.deep_view(),
            kind: self.kind.deep_view(),
            name: self.name.deep_view(),
            namespace: self.namespace.deep_view(),
            resource_version: self.resource_version.deep_view(),
            uid: self.uid.deep_view(),
        }
    }
}

impl DeepMerge for ObjectReference {
    open spec fn merged_view(
        pre: ObjectReferenceView,
        other: ObjectReferenceView,
    ) -> ObjectReferenceView {
        ObjectReferenceView {
            api_version: <Option<String> as DeepMerge>::merged_view(
                pre.api_version,
                other.api_version,
            ),
            field_path: <Option<String> as DeepMerge>::merged_view(
                pre.field_path,
                other.field_path,
            ),
            kind: <Option<String> as DeepMerge>::merged_view(pre.kind, other.kind),
            name: <Option<String> as DeepMerge>::merged_view(pre.name, other.name),
            namespace: <Option<String> as DeepMerge>::merged_view(
                pre.namespace,
                other.namespace,
            ),
            resource_version: <Option<String> as DeepMerge>::merged_view(
                pre.resource_version,
                other.resource_version,
            ),
            uid: <Option<String> as DeepMerge>::merged_view(pre.uid, other.uid),
        }
    }

    fn merge_from(&mut self, other: Self) {
        self.api_version.merge_from(other.api_version);
        self.field_path.merge_from(other.field_path);
        self.kind.merge_from(other.kind);
        self.name.merge_from(other.name);
        self.namespace.merge_from(other.namespace);
        self.resource_version.merge_from(other.resource_version);
        self.uid.merge_from(other.uid);
    }
}

/// A reference to a scalable resource, by kind, name and version.
#[derive(Debug, Clone, PartialEq)]
pub struct CrossVersionObjectReference {
    pub api_version: Option<String>,
    pub kind: String,
    pub name: String,
}

/// The mathematical shape of a [`CrossVersionObjectReference`].
pub struct CrossVersionObjectReferenceView {
    pub api_version: Option<Seq<char>>,
    pub kind: Seq<char>,
    pub name: Seq<char>,
}

impl DeepView for CrossVersionObjectReference {
    type V = CrossVersionObjectReferenceView;

    open spec fn deep_view(&self) -> CrossVersionObjectReferenceView {
        CrossVersionObjectReferenceView {
            api_version: self.api_version.deep_view(),
            kind: self.kind@,
            name: self.name@,
        }
    }
}

impl DeepMerge for CrossVersionObjectReference {
    open spec fn merged_view(
        pre: CrossVersionObjectReferenceView,
        other: CrossVersionObjectReferenceView,
    ) -> CrossVersionObjectReferenceView {
        CrossVersionObjectReferenceView {
            api_version: <Option<String> as DeepMerge>::merged_view(
                pre.api_version,
                other.api_version,
            ),
            kind: other.kind,
            name: other.name,
        }
    }

    fn merge_from(&mut self, other: Self) {
        self.api_version.merge_from(other.api_version);
        self.kind.merge_from(other.kind);
        self.name.merge_from(other.name);
    }
}

/// The service endpoint that traffic is forwarded to.
#[derive(Debug, Clone, PartialEq)]
pub struct IngressBackend {
    pub service_name: String,
    pub service_port: IntOrString,
}

/// The mathematical shape of an [`IngressBackend`].
pub struct IngressBackendView {
    pub service_name: Seq<char>,
    pub service_port: IntOrStringView,
}

impl DeepView for IngressBackend {
    type V = IngressBackendView;

    open spec fn deep_view(&self) -> IngressBackendView {
        IngressBackendView {
            service_name: self.service_name@,
            service_port: self.service_port.deep_view(),
        }
    }
}

impl DeepMerge for IngressBackend {
    open spec fn merged_view(pre: IngressBackendView, other: IngressBackendView) -> IngressBackendView {
        IngressBackendView { service_name: other.service_name, service_port: other.service_port }
    }

    fn merge_from(&mut self, other: Self) {
        self.service_name.merge_from(other.service_name);
        self.service_port.merge_from(other.service_port);
    }
}

} // verus!
