//! How a plug-in is described to the host application.

use vstd::prelude::*;

verus! {

/// What kind of plug-in it is.
#[derive(Debug, Clone, Copy, PartialEq, Eq, Structural)]
pub enum PluginType {
    Effect,
    Instrument,
    Mixer,
    FormatConverter,
    Other,
}

/// A plug-in as the host application sees it.
#[derive(Debug, Clone)]
pub struct PluginInfo {
    pub name: String,
    pub manufacturer: String,
    pub version: u32,
    pub plugin_type: PluginType,
    pub path: String,
    pub unique_id: String,
}

/// A plug-in's description as mathematical values.
pub struct PluginInfoView {
    pub name: Seq<char>,
    pub manufacturer: Seq<char>,
    pub version: u32,
    pub plugin_type: PluginType,
    pub path: Seq<char>,
    pub unique_id: Seq<char>,
}

impl View for PluginInfo {
    type V = PluginInfoView;

    open spec fn view(&self) -> PluginInfoView {
        PluginInfoView {
            name: self.name@,
            manufacturer: self.manufacturer@,
            version: self.version,
            plugin_type: self.plugin_type,
            path: self.path@,
            unique_id: self.unique_id@,
        }
    }
}

/// A preset of a plug-in.
#[derive(Debug, Clone)]
pub struct PresetInfo {
    pub index: usize,
    pub name: String,
    pub preset_number: i32,
}

impl PluginInfo {
    /// A copy of the description.
    pub fn duplicate(&self) -> (copy: PluginInfo)
        ensures
            copy@ == self@,
    {
        PluginInfo {
            name: self.name.clone(),
            manufacturer: self.manufacturer.clone(),
            version: self.version,
            plugin_type: self.plugin_type,
            path: self.path.clone(),
            unique_id: self.unique_id.clone(),
        }
    }
}

} // verus!
