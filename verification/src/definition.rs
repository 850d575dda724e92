//! The description of a service, and the record that registers it.

use crate::status::{ServiceType, SERVICE_WIN32_OWN_PROCESS};
use vstd::prelude::*;

verus! {

/// A service that can be registered: pure configuration, which every
/// control action reads and none changes.
#[derive(Clone, Debug, PartialEq, Eq)]
pub struct ServiceDefinition {
    /// The name under which the registry knows the service.
    pub name: String,
    /// The name that is shown to people.
    pub display_name: String,
    /// A sentence on what the service does.
    pub description: String,
    /// The path of the program that the service runs.
    pub executable_path: String,
    /// The arguments with which the program is launched, in order.
    pub launch_arguments: Vec<String>,
}

/// The mathematical content of a [`ServiceDefinition`].
pub struct ServiceDefinitionView {
    pub name: Seq<char>,
    pub display_name: Seq<char>,
    pub description: Seq<char>,
    pub executable_path: Seq<char>,
    pub launch_arguments: Seq<Seq<char>>,
}

impl View for ServiceDefinition {
    type V = ServiceDefinitionView;

    open spec fn view(&self) -> ServiceDefinitionView {
        ServiceDefinitionView {
            name: self.name@,
            display_name: self.display_name@,
            description: self.description@,
            executable_path: self.executable_path@,
            launch_arguments: self.launch_arguments.deep_view(),
        }
    }
}

/// When the registry starts a service.
#[derive(Clone, Copy, Debug, PartialEq, Eq, Structural)]
pub enum ServiceStartType {
    AutoStart,
    OnDemand,
    Disabled,
}

/// What the registry does when a service fails to start.
#[derive(Clone, Copy, Debug, PartialEq, Eq, Structural)]
pub enum ServiceErrorControl {
    Critical,
    Ignore,
    Normal,
    Severe,
}

/// The full record with which a service is created in the registry.
#[derive(Clone, Debug, PartialEq, Eq)]
pub struct ServiceInfo {
    pub name: String,
    pub display_name: String,
    pub service_type: ServiceType,
    pub start_type: ServiceStartType,
    pub error_control: ServiceErrorControl,
    pub executable_path: String,
    pub launch_arguments: Vec<String>,
    /// The services and groups that must be up first, by their identifiers.
    pub dependencies: Vec<String>,
    pub account_name: Option<String>,
    pub account_password: Option<String>,
}

/// The mathematical content of a [`ServiceInfo`].
pub struct ServiceInfoView {
    pub name: Seq<char>,
    pub display_name: Seq<char>,
    pub service_type: ServiceType,
    pub start_type: ServiceStartType,
    pub error_control: ServiceErrorControl,
    pub executable_path: Seq<char>,
    pub launch_arguments: Seq<Seq<char>>,
    pub dependencies: Seq<Seq<char>>,
    pub account_name: Option<Seq<char>>,
    pub account_password: Option<Seq<char>>,
}

impl View for ServiceInfo {
    type V = ServiceInfoView;

    open spec fn view(&self) -> ServiceInfoView {
        ServiceInfoView {
            name: self.name@,
            display_name: self.display_name@,
            service_type: self.service_type,
            start_type: self.start_type,
            error_control: self.error_control,
            executable_path: self.executable_path@,
            launch_arguments: self.launch_arguments.deep_view(),
            dependencies: self.dependencies.deep_view(),
            account_name: match self.account_name {
                Some(name) => Some(name@),
                None => None,
            },
            account_password: match self.account_password {
                Some(password) => Some(password@),
                None => None,
            },
        }
    }
}

/// The record that registers the service `definition`: a service in a
/// process of its own, started on demand, whose failure to start is logged
/// and no more; it depends on nothing and runs under no account of its own.
/// The description is not part of the record.
pub open spec fn service_record(definition: ServiceDefinitionView) -> ServiceInfoView {
    ServiceInfoView {
        name: definition.name,
        display_name: definition.display_name,
        service_type: ServiceType { bits: SERVICE_WIN32_OWN_PROCESS },
        start_type: ServiceStartType::OnDemand,
        error_control: ServiceErrorControl::Normal,
        executable_path: definition.executable_path,
        launch_arguments: definition.launch_arguments,
        dependencies: Seq::empty(),
        account_name: None,
        account_password: None,
    }
}

/// A copy of `texts`, item by item.
fn clone_texts(texts: &Vec<String>) -> (copy: Vec<String>)
    ensures
        copy.deep_view() == texts.deep_view(),
{
    let mut copy: Vec<String> = Vec::new();
    let mut index: usize = 0;
    while index < texts.len()
        invariant
            index <= texts.len(),
            copy.len() == index,
            forall|i: int| 0 <= i < index ==> copy[i]@ == texts[i]@,
        decreases texts.len() - index,
    {
        copy.push(texts[index].clone());
        index += 1;
    }
    assert(copy.deep_view() =~= texts.deep_view());
    copy
}

/// Builds the record that registers the service `definition`.
pub fn service_info(definition: &ServiceDefinition) -> (info: ServiceInfo)
    ensures
        info@ == service_record(definition@),
{
    let dependencies: Vec<String> = Vec::new();
    assert(dependencies.deep_view() =~= Seq::<Seq<char>>::empty());
    ServiceInfo {
        name: definition.name.clone(),
        display_name: definition.display_name.clone(),
        service_type: ServiceType { bits: SERVICE_WIN32_OWN_PROCESS },
        start_type: ServiceStartType::OnDemand,
        error_control: ServiceErrorControl::Normal,
        executable_path: definition.executable_path.clone(),
        launch_arguments: clone_texts(&definition.launch_arguments),
        dependencies,
        account_name: None,
        account_password: None,
    }
}

} // verus!
