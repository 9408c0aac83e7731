//! Output orchestration for Kotlin Multiplatform bindings: naming defaults,
//! cross-component package links, and the on-disk layout of generated sources.

use crate::config::{opt_view, unset_config, views_of_components, Component, Config, GenerationSettings};
use crate::error::{Error, ErrorView};
use crate::resolve::{default_cdylib_name, default_package_name, resolved};
use crate::writer::{step_of, PassState, WriteAction, WriteEvent};
use vstd::prelude::*;

pub mod config;
pub mod document;
pub mod error;
pub mod layout;
pub mod packages;
pub mod resolve;
pub mod text;
pub mod writer;

verus! {

/// The four texts generated for one component: one per source set, plus the
/// C header consumed by the native interop tooling.
#[derive(Debug)]
pub struct KotlinMultiplatformBindings {
    pub common: String,
    pub jvm: String,
    pub native: String,
    pub header: String,
}

/// The binding generator for Kotlin Multiplatform: configuration, name
/// resolution and the write pass.
#[derive(Debug)]
pub struct KotlinMultiplatformBindingGenerator;

impl KotlinMultiplatformBindingGenerator {
    /// The configuration of a component from what decoding this generator's
    /// section of the configuration document gave: the defaults where the
    /// document has no such section, the decoded configuration where it has
    /// one, and the decoder's message as a parse error where the section is
    /// malformed.
    pub fn new_config(&self, decoded: Option<Result<Config, String>>) -> (config: Result<
        Config,
        Error,
    >)
        ensures
            match decoded {
                None => config is Ok && config->Ok_0@ == unset_config(),
                Some(Ok(given)) => config is Ok && config->Ok_0 == given,
                Some(Err(message)) => config is Err && config->Err_0@ == ErrorView::ConfigParse(
                    message@,
                ),
            },
    {
        match decoded {
            None => Ok(Config::default()),
            Some(Ok(given)) => Ok(given),
            Some(Err(message)) => Err(Error::ConfigParse(message)),
        }
    }

    /// Resolves the names of all components of a build, in place. It never
    /// fails.
    pub fn update_component_configs(
        &self,
        settings: &GenerationSettings,
        components: &mut Vec<Component>,
    ) -> (done: Result<(), Error>)
        ensures
            done is Ok,
            views_of_components(final(components)@) == resolved(
                views_of_components(old(components)@),
                opt_view(settings.cdylib),
            ),
            final(components)@.len() == old(components)@.len(),
            forall|i: int|
                0 <= i < old(components)@.len() && old(components)@[i].config.package_name is None
                    ==> (#[trigger] final(components)@[i])@.config.package_name == Some(
                    default_package_name(old(components)@[i]@.namespace),
                ),
            forall|i: int|
                0 <= i < old(components)@.len() && old(components)@[i].config.cdylib_name is None
                    ==> (#[trigger] final(components)@[i])@.config.cdylib_name == Some(
                    match settings.cdylib {
                        Some(name) => name@,
                        None => default_cdylib_name(old(components)@[i]@.namespace),
                    },
                ),
    {
        crate::resolve::resolve(components, &settings.cdylib);
        Ok(())
    }

    /// Takes one step of the write pass: from the state of the pass and what
    /// the caller reports, the next state and what the caller is to do next.
    /// The pass begins in [`PassState::new`] with [`WriteEvent::Begin`].
    pub fn write_bindings(
        &self,
        settings: &GenerationSettings,
        components: &Vec<Component>,
        state: PassState,
        event: WriteEvent,
    ) -> (next: (PassState, WriteAction))
        ensures
            (next.0@, next.1@) == step_of(
                views_of_components(components@),
                settings.out_dir@,
                state@,
                event@,
            ),
    {
        crate::writer::step(components, settings.out_dir.as_str(), state, event)
    }
}

/// What a [`KotlinMultiplatformBindings`] holds, as plain mathematical
/// values.
pub struct BindingsView {
    pub common: Seq<char>,
    pub jvm: Seq<char>,
    pub native: Seq<char>,
    pub header: Seq<char>,
}

impl View for KotlinMultiplatformBindings {
    type V = BindingsView;

    open spec fn view(&self) -> BindingsView {
        BindingsView {
            common: self.common@,
            jvm: self.jvm@,
            native: self.native@,
            header: self.header@,
        }
    }
}

} // verus!
