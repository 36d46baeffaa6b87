//! Backend-neutral capability and host facts consumed by policy.

use vstd::prelude::*;
use crate::text::{contains_text, list_has};

verus! {

#[derive(Clone, Debug, PartialEq, Eq)]
pub struct Capabilities {
    pub recorder_version: Option<String>,
    pub capture_device: Option<String>,
    pub encoding_device: Option<String>,
    pub capture_options: Vec<String>,
    pub monitors: Vec<String>,
    pub cameras: Vec<String>,
    pub audio_devices: Vec<String>,
    pub applications: Vec<String>,
    pub codecs: Vec<String>,
    pub portal_available: bool,
    pub ipc_available: bool,
    pub native_multi_source_available: bool,
    pub generation: u64,
    pub probed_unix_ms: Option<u64>,
    pub raw_probe: Vec<String>,
    pub warnings: Vec<String>,
}

#[derive(Clone, Debug, PartialEq, Eq)]
pub struct HostFacts {
    pub display_server: Option<String>,
    pub gpu_vendor: Option<String>,
    pub card_path: Option<String>,
    pub topology_generation: u64,
}

impl Default for HostFacts {
    fn default() -> (h: Self)
        ensures
            h.display_server is None && h.gpu_vendor is None && h.card_path is None,
            h.topology_generation == 0,
    {
        HostFacts { display_server: None, gpu_vendor: None, card_path: None, topology_generation: 0 }
    }
}

impl Default for Capabilities {
    fn default() -> (c: Self)
        ensures
            c.recorder_version is None && c.capture_device is None && c.encoding_device is None,
            c.capture_options@.len() == 0 && c.monitors@.len() == 0 && c.cameras@.len() == 0,
            c.audio_devices@.len() == 0 && c.applications@.len() == 0 && c.codecs@.len() == 0,
            !c.portal_available && !c.ipc_available && !c.native_multi_source_available,
            c.generation == 0 && c.probed_unix_ms is None,
            c.raw_probe@.len() == 0 && c.warnings@.len() == 0,
    {
        Capabilities {
            recorder_version: None,
            capture_device: None,
            encoding_device: None,
            capture_options: Vec::new(),
            monitors: Vec::new(),
            cameras: Vec::new(),
            audio_devices: Vec::new(),
            applications: Vec::new(),
            codecs: Vec::new(),
            portal_available: false,
            ipc_available: false,
            native_multi_source_available: false,
            generation: 0,
            probed_unix_ms: None,
            raw_probe: Vec::new(),
            warnings: Vec::new(),
        }
    }
}

impl Capabilities {
    pub fn has_capture_option(&self, name: &str) -> (b: bool)
        ensures
            b == list_has(self.capture_options@, name@),
    {
        contains_text(&self.capture_options, name)
    }

    pub fn has_monitor(&self, name: &str) -> (b: bool)
        ensures
            b == list_has(self.monitors@, name@),
    {
        contains_text(&self.monitors, name)
    }

    pub fn has_camera(&self, path: &str) -> (b: bool)
        ensures
            b == list_has(self.cameras@, path@),
    {
        contains_text(&self.cameras, path)
    }

    pub fn has_audio_device(&self, id: &str) -> (b: bool)
        ensures
            b == list_has(self.audio_devices@, id@),
    {
        contains_text(&self.audio_devices, id)
    }

    pub fn has_application(&self, name: &str) -> (b: bool)
        ensures
            b == list_has(self.applications@, name@),
    {
        contains_text(&self.applications, name)
    }
}

} // verus!
