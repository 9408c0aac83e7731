//! Components and their configuration, with the mathematical views that the
//! contracts speak of.

use crate::packages::PackageMap;
use vstd::prelude::*;

verus! {

/// The character sequence of an optional string.
pub open spec fn opt_view(text: Option<String>) -> Option<Seq<char>> {
    match text {
        Some(s) => Some(s@),
        None => None,
    }
}

/// What a [`Config`] holds, as plain mathematical values.
pub struct ConfigView {
    pub package_name: Option<Seq<char>>,
    pub cdylib_name: Option<Seq<char>>,
    pub external_packages: Map<Seq<char>, Seq<char>>,
}

/// Naming options of one component. Each starts unset and is filled in by
/// resolution; `external_packages` maps other components' crate names to the
/// packages generated for them.
#[derive(Debug)]
pub struct Config {
    pub package_name: Option<String>,
    pub cdylib_name: Option<String>,
    pub external_packages: PackageMap,
}

impl View for Config {
    type V = ConfigView;

    open spec fn view(&self) -> ConfigView {
        ConfigView {
            package_name: opt_view(self.package_name),
            cdylib_name: opt_view(self.cdylib_name),
            external_packages: self.external_packages@,
        }
    }
}

/// The configuration with nothing set and no external packages.
pub open spec fn unset_config() -> ConfigView {
    ConfigView { package_name: None, cdylib_name: None, external_packages: Map::empty() }
}

impl Default for Config {
    /// Nothing set, no external packages.
    fn default() -> (config: Config)
        ensures
            config@ == unset_config(),
    {
        Config { package_name: None, cdylib_name: None, external_packages: PackageMap::new() }
    }
}

impl Clone for Config {
    fn clone(&self) -> (copy: Config)
        ensures
            copy@ == self@,
    {
        Config {
            package_name: self.package_name.clone(),
            cdylib_name: self.cdylib_name.clone(),
            external_packages: self.external_packages.clone(),
        }
    }
}

/// What a [`Component`] is, as plain mathematical values.
pub struct ComponentView {
    pub namespace: Seq<char>,
    pub crate_name: Seq<char>,
    pub config: ConfigView,
}

/// What this layer reads of an interface description: its namespace and the
/// name of the crate it was taken from.
#[derive(Debug)]
pub struct ComponentInterface {
    namespace: String,
    crate_name: String,
}

impl ComponentInterface {
    pub closed spec fn spec_namespace(&self) -> Seq<char> {
        self.namespace@
    }

    pub closed spec fn spec_crate_name(&self) -> Seq<char> {
        self.crate_name@
    }

    pub fn new(namespace: String, crate_name: String) -> (ci: ComponentInterface)
        ensures
            ci.spec_namespace() == namespace@,
            ci.spec_crate_name() == crate_name@,
    {
        ComponentInterface { namespace, crate_name }
    }

    pub fn namespace(&self) -> (namespace: &str)
        ensures
            namespace@ == self.spec_namespace(),
    {
        self.namespace.as_str()
    }

    pub fn crate_name(&self) -> (crate_name: &str)
        ensures
            crate_name@ == self.spec_crate_name(),
    {
        self.crate_name.as_str()
    }
}

/// One interface description with its configuration.
#[derive(Debug)]
pub struct Component {
    pub ci: ComponentInterface,
    pub config: Config,
}

impl View for Component {
    type V = ComponentView;

    open spec fn view(&self) -> ComponentView {
        ComponentView {
            namespace: self.ci.spec_namespace(),
            crate_name: self.ci.spec_crate_name(),
            config: self.config@,
        }
    }
}

/// The views of a list of components, in order.
pub open spec fn views_of_components(components: Seq<Component>) -> Seq<ComponentView> {
    components.map_values(|c: Component| c@)
}

/// Settings of one generation run.
#[derive(Debug)]
pub struct GenerationSettings {
    /// The directory under which all files are written.
    pub out_dir: String,
    /// A native library name that replaces every component's default.
    pub cdylib: Option<String>,
}

} // verus!
