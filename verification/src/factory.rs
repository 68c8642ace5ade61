use vstd::prelude::*;

use crate::errors::CoreError;

verus! {

/// 128-bit class identifier, as four 32-bit words.
#[derive(Clone, Copy, PartialEq, Eq, Structural, Debug)]
pub struct Guid {
    pub w0: u32,
    pub w1: u32,
    pub w2: u32,
    pub w3: u32,
}

/// Stable identifier of the processing component's class.
pub open spec fn spec_processor_cid() -> Guid {
    Guid { w0: 0x8a1f6e42, w1: 0x3d9c4b07, w2: 0xb25e91d3, w3: 0x4c78a610 }
}

/// Stable identifier of the controller's class.
pub open spec fn spec_controller_cid() -> Guid {
    Guid { w0: 0x8a1f6e43, w1: 0x3d9c4b07, w2: 0xb25e91d3, w3: 0x4c78a611 }
}

/// Which of the factory's two classes an identifier names.
#[derive(Clone, Copy, PartialEq, Eq, Structural, Debug)]
pub enum ClassKind {
    Processor,
    Controller,
}

/// Vendor identity of the factory.
pub struct FactoryInfo {
    pub vendor: String,
    pub url: String,
    pub email: String,
    /// Component-non-discardable flag of the plugin interface.
    pub flags: i32,
}

/// Basic metadata of one class.
pub struct ClassInfo {
    pub cid: Guid,
    pub cardinality: i32,
    pub name: String,
    pub category: String,
}

/// Extended metadata of one class.
pub struct ClassInfoExt {
    pub cid: Guid,
    pub cardinality: i32,
    pub class_flags: u32,
    pub name: String,
    pub category: String,
    pub subcategories: String,
    pub vendor: String,
    pub version: String,
}

/// Enumerates the plugin's classes — the processing component and this
/// controller — each with a distinct stable identifier, display name and
/// category.  A request for an unrecognized identifier or index reports
/// failure rather than constructing a default instance.
pub struct PiSynthPluginFactory {}

impl PiSynthPluginFactory {
    pub fn new() -> (f: PiSynthPluginFactory) {
        PiSynthPluginFactory {}
    }

    /// Identifier of the processing component's class.
    pub fn processor_cid(&self) -> (r: Guid)
        ensures
            r == spec_processor_cid(),
    {
        Guid { w0: 0x8a1f6e42, w1: 0x3d9c4b07, w2: 0xb25e91d3, w3: 0x4c78a610 }
    }

    /// Identifier of the controller's class.
    pub fn controller_cid(&self) -> (r: Guid)
        ensures
            r == spec_controller_cid(),
    {
        Guid { w0: 0x8a1f6e43, w1: 0x3d9c4b07, w2: 0xb25e91d3, w3: 0x4c78a611 }
    }

    /// Vendor identity; the flags word marks the component as
    /// non-discardable.
    pub fn get_factory_info(&self) -> (r: FactoryInfo)
        ensures
            r.vendor@ == "PiSynth Audio"@,
            r.url@ == "https://pisynth.example"@,
            r.email@ == "hello@pisynth.example"@,
            r.flags == 8i32,
    {
        FactoryInfo {
            vendor: "PiSynth Audio".to_owned(),
            url: "https://pisynth.example".to_owned(),
            email: "hello@pisynth.example".to_owned(),
            flags: 8,
        }
    }

    /// Exactly two classes: the processor and the controller.
    pub fn count_classes(&self) -> (r: i32)
        ensures
            r == 2i32,
    {
        2
    }

    /// Basic metadata by index: 0 is the processor, 1 the controller; any
    /// other index reports `InvalidArgument`.
    pub fn get_class_info(&self, index: i32) -> (r: Result<ClassInfo, CoreError>)
        ensures
            match r {
                Ok(info) => {
                    &&& (index == 0i32 || index == 1i32)
                    &&& info.cardinality == 0x7fff_ffffi32
                    &&& (index == 0i32 ==> info.cid == spec_processor_cid()
                        && info.name@ == "PiSynth"@
                        && info.category@ == "Audio Module Class"@)
                    &&& (index == 1i32 ==> info.cid == spec_controller_cid()
                        && info.name@ == "PiSynth Controller"@
                        && info.category@ == "Component Controller Class"@)
                },
                Err(e) => e == CoreError::InvalidArgument && index != 0i32 && index != 1i32,
            },
    {
        if index == 0 {
            Ok(ClassInfo {
                cid: self.processor_cid(),
                cardinality: 0x7fff_ffff,
                name: "PiSynth".to_owned(),
                category: "Audio Module Class".to_owned(),
            })
        } else if index == 1 {
            Ok(ClassInfo {
                cid: self.controller_cid(),
                cardinality: 0x7fff_ffff,
                name: "PiSynth Controller".to_owned(),
                category: "Component Controller Class".to_owned(),
            })
        } else {
            Err(CoreError::InvalidArgument)
        }
    }

    /// Extended metadata by index, same indexing as `get_class_info`; the
    /// processor is marked distributable (class flags 1), the controller
    /// is not.
    pub fn get_class_info_ext(&self, index: i32) -> (r: Result<ClassInfoExt, CoreError>)
        ensures
            match r {
                Ok(info) => {
                    &&& (index == 0i32 || index == 1i32)
                    &&& info.cardinality == 0x7fff_ffffi32
                    &&& info.vendor@ == "PiSynth Audio"@
                    &&& info.version@ == "1.0.0"@
                    &&& (index == 0i32 ==> info.cid == spec_processor_cid()
                        && info.class_flags == 1u32
                        && info.name@ == "PiSynth"@
                        && info.category@ == "Audio Module Class"@
                        && info.subcategories@ == "Instrument|Synth"@)
                    &&& (index == 1i32 ==> info.cid == spec_controller_cid()
                        && info.class_flags == 0u32
                        && info.name@ == "PiSynth Controller"@
                        && info.category@ == "Component Controller Class"@
                        && info.subcategories@ == ""@)
                },
                Err(e) => e == CoreError::InvalidArgument && index != 0i32 && index != 1i32,
            },
    {
        if index == 0 {
            Ok(ClassInfoExt {
                cid: self.processor_cid(),
                cardinality: 0x7fff_ffff,
                class_flags: 1,
                name: "PiSynth".to_owned(),
                category: "Audio Module Class".to_owned(),
                subcategories: "Instrument|Synth".to_owned(),
                vendor: "PiSynth Audio".to_owned(),
                version: "1.0.0".to_owned(),
            })
        } else if index == 1 {
            Ok(ClassInfoExt {
                cid: self.controller_cid(),
                cardinality: 0x7fff_ffff,
                class_flags: 0,
                name: "PiSynth Controller".to_owned(),
                category: "Component Controller Class".to_owned(),
                subcategories: "".to_owned(),
                vendor: "PiSynth Audio".to_owned(),
                version: "1.0.0".to_owned(),
            })
        } else {
            Err(CoreError::InvalidArgument)
        }
    }

    /// Instantiation decision: which class a requested identifier names.
    /// An identifier naming neither class reports `NotFound`; the
    /// dispatch layer allocates the chosen component.
    pub fn create_instance(&self, cid: Guid) -> (r: Result<ClassKind, CoreError>)
        ensures
            match r {
                Ok(kind) => (kind == ClassKind::Processor && cid == spec_processor_cid())
                    || (kind == ClassKind::Controller && cid == spec_controller_cid()),
                Err(e) => e == CoreError::NotFound && cid != spec_processor_cid()
                    && cid != spec_controller_cid(),
            },
    {
        if cid == self.processor_cid() {
            Ok(ClassKind::Processor)
        } else if cid == self.controller_cid() {
            Ok(ClassKind::Controller)
        } else {
            Err(CoreError::NotFound)
        }
    }
}

} // verus!
