//! The identity of the host: four texts, any of which the host may fail to
//! provide.

use vstd::prelude::*;

verus! {

/// The text shown in place of an identity field that is not available.
pub const PLACEHOLDER: &'static str = "unknown";

/// One of the four identity fields.
#[derive(Clone, Copy, Debug, PartialEq, Eq)]
pub enum IdentityField {
    OsName,
    KernelVersion,
    HostName,
    OsVersion,
}

/// The identity of the host. A field is `None` where the host did not
/// provide it.
#[derive(Debug, PartialEq, Eq)]
pub struct HostIdentity {
    os_name: Option<String>,
    kernel_version: Option<String>,
    host_name: Option<String>,
    os_version: Option<String>,
}

/// What a [`HostIdentity`] holds, as sequences of characters.
pub struct HostIdentityView {
    pub os_name: Option<Seq<char>>,
    pub kernel_version: Option<Seq<char>>,
    pub host_name: Option<Seq<char>>,
    pub os_version: Option<Seq<char>>,
}

/// The characters of an optional text.
pub open spec fn text_of(field: Option<String>) -> Option<Seq<char>> {
    match field {
        Some(text) => Some(text@),
        None => None,
    }
}

impl HostIdentityView {
    /// The field `which`, if it is available.
    pub open spec fn field(self, which: IdentityField) -> Option<Seq<char>> {
        match which {
            IdentityField::OsName => self.os_name,
            IdentityField::KernelVersion => self.kernel_version,
            IdentityField::HostName => self.host_name,
            IdentityField::OsVersion => self.os_version,
        }
    }

    /// The text to show for the field `which`: the field itself, or the
    /// placeholder where it is not available.
    pub open spec fn label(self, which: IdentityField) -> Seq<char> {
        match self.field(which) {
            Some(text) => text,
            None => PLACEHOLDER@,
        }
    }

    /// This identity with the field `which` not available.
    pub open spec fn without(self, which: IdentityField) -> HostIdentityView {
        match which {
            IdentityField::OsName => HostIdentityView { os_name: None, ..self },
            IdentityField::KernelVersion => HostIdentityView { kernel_version: None, ..self },
            IdentityField::HostName => HostIdentityView { host_name: None, ..self },
            IdentityField::OsVersion => HostIdentityView { os_version: None, ..self },
        }
    }
}

impl View for HostIdentity {
    type V = HostIdentityView;

    closed spec fn view(&self) -> HostIdentityView {
        HostIdentityView {
            os_name: text_of(self.os_name),
            kernel_version: text_of(self.kernel_version),
            host_name: text_of(self.host_name),
            os_version: text_of(self.os_version),
        }
    }
}

impl HostIdentity {
    /// The identity made of the four answers of the host, each kept as it
    /// came: an answer that is missing leaves the others as they are.
    pub fn new(
        os_name: Option<String>,
        kernel_version: Option<String>,
        host_name: Option<String>,
        os_version: Option<String>,
    ) -> (identity: HostIdentity)
        ensures
            identity@.os_name == text_of(os_name),
            identity@.kernel_version == text_of(kernel_version),
            identity@.host_name == text_of(host_name),
            identity@.os_version == text_of(os_version),
    {
        HostIdentity { os_name, kernel_version, host_name, os_version }
    }

    /// The field `which`, if it is available.
    pub fn field(&self, which: IdentityField) -> (text: Option<&String>)
        ensures
            text is Some <==> self@.field(which) is Some,
            text matches Some(t) ==> self@.field(which) == Some(t@),
    {
        match which {
            IdentityField::OsName => self.os_name.as_ref(),
            IdentityField::KernelVersion => self.kernel_version.as_ref(),
            IdentityField::HostName => self.host_name.as_ref(),
            IdentityField::OsVersion => self.os_version.as_ref(),
        }
    }

    /// The text to show for the field `which`: the field itself, or
    /// [`PLACEHOLDER`] where it is not available.
    pub fn label(&self, which: IdentityField) -> (text: String)
        ensures
            text@ == self@.label(which),
    {
        match self.field(which) {
            Some(value) => value.clone(),
            None => PLACEHOLDER.to_owned(),
        }
    }
}

/// A field that is missing shows as the placeholder and changes nothing
/// about any other field: each of the others is still there and shows as
/// before.
pub proof fn lemma_missing_field_is_local(
    identity: HostIdentityView,
    missing: IdentityField,
    other: IdentityField,
)
    requires
        missing != other,
    ensures
        identity.without(missing).field(missing) is None,
        identity.without(missing).label(missing) == PLACEHOLDER@,
        identity.without(missing).field(other) == identity.field(other),
        identity.without(missing).label(other) == identity.label(other),
{
}

/// The label of a field depends on that field alone: two identities that
/// agree on a field show the same text for it, whatever their other fields
/// hold.
pub proof fn lemma_label_depends_on_field(
    first: HostIdentityView,
    second: HostIdentityView,
    which: IdentityField,
)
    requires
        first.field(which) == second.field(which),
    ensures
        first.label(which) == second.label(which),
{
}

} // verus!
