use pi_synth::controller::PiSynthController;
use pi_synth::errors::CoreError;
use pi_synth::factory::{ClassKind, Guid, PiSynthPluginFactory};
use pi_synth::params::{ConversionRule, CurveKind, ParameterDefinition};
use pi_synth::registry::ParameterRegistry;
use pi_synth::state::{read_state, read_u64_le, write_state};
use pi_synth::store::ParameterStore;

fn named_def(id: u32, title: &str, default: f64) -> ParameterDefinition {
    ParameterDefinition {
        id,
        title: title.to_owned(),
        short_title: title.to_owned(),
        units: "Hz".to_owned(),
        step_count: 0,
        default_value_bits: default.to_bits(),
        can_automate: true,
        rule: ConversionRule {
            kind: CurveKind::Linear,
            min_bits: 0.0f64.to_bits(),
            max_bits: 1.0f64.to_bits(),
        },
    }
}

#[test]
fn wire_format_is_little_endian_doubles() {
    let reg = ParameterRegistry::define(vec![named_def(3, "A", 0.25), named_def(9, "B", -1.5)])
        .unwrap();
    let store = ParameterStore::initialized(&reg);
    let blob = write_state(&store, &reg);
    let mut expected = Vec::new();
    expected.extend_from_slice(&0.25f64.to_le_bytes());
    expected.extend_from_slice(&(-1.5f64).to_le_bytes());
    assert_eq!(blob, expected);
    assert_eq!(f64::from_bits(read_u64_le(&blob, 8)), -1.5);
}

#[test]
fn state_round_trip_same_registry() {
    let reg = ParameterRegistry::define(vec![
        named_def(3, "A", 0.25),
        named_def(9, "B", 0.75),
        named_def(1, "C", 0.5),
    ])
    .unwrap();
    let mut store = ParameterStore::initialized(&reg);
    assert!(store.set(9, 0.125f64.to_bits()));
    let blob = write_state(&store, &reg);
    assert_eq!(blob.len(), 24);
    let restored = read_state(&blob, &reg);
    for id in [3u32, 9, 1] {
        assert_eq!(restored.get(id), store.get(id), "id {}", id);
    }
}

#[test]
fn state_order_sensitivity() {
    // Registry A and registry B hold the same two parameters in swapped
    // canonical order: a blob written over A and read over B hands each
    // position's value to the other id.
    let reg_a = ParameterRegistry::define(vec![named_def(3, "A", 0.25), named_def(9, "B", 0.75)])
        .unwrap();
    let reg_b = ParameterRegistry::define(vec![named_def(9, "B", 0.75), named_def(3, "A", 0.25)])
        .unwrap();
    let store = ParameterStore::initialized(&reg_a);
    let blob = write_state(&store, &reg_a);
    let restored = read_state(&blob, &reg_b);
    assert_eq!(restored.get(9), Some(0.25f64.to_bits()));
    assert_eq!(restored.get(3), Some(0.75f64.to_bits()));
    assert_ne!(restored.get(3), store.get(3));
}

#[test]
fn short_stream_populates_prefix_only() {
    let reg = ParameterRegistry::define(vec![named_def(3, "A", 0.25), named_def(9, "B", 0.75)])
        .unwrap();
    let store = ParameterStore::initialized(&reg);
    let blob = write_state(&store, &reg);
    let restored = read_state(&blob[..12], &reg);
    assert_eq!(restored.get(3), Some(0.25f64.to_bits()));
    assert_eq!(restored.get(9), None);
}

#[test]
fn component_state_load() {
    let reg = ParameterRegistry::define(vec![named_def(3, "A", 0.25), named_def(9, "B", 0.75)])
        .unwrap();
    let store = ParameterStore::initialized(&reg);
    let blob = write_state(&store, &reg);

    let mut ctrl = PiSynthController::new(
        ParameterRegistry::define(vec![named_def(3, "A", 0.0), named_def(9, "B", 0.0)]).unwrap(),
    );
    assert!(ctrl.initialize().is_ok());
    assert!(ctrl.set_component_state(&blob).is_ok());
    assert_eq!(ctrl.get_param_normalized(3), 0.25f64.to_bits());
    assert_eq!(ctrl.get_param_normalized(9), 0.75f64.to_bits());
}

#[test]
fn component_state_rejects_empty_stream() {
    let mut ctrl = PiSynthController::new(
        ParameterRegistry::define(vec![named_def(3, "A", 0.25)]).unwrap(),
    );
    assert!(ctrl.initialize().is_ok());
    match ctrl.set_component_state(&[]) {
        Err(e) => assert_eq!(e, CoreError::ReadFailure),
        Ok(_) => panic!("an empty stream must be rejected"),
    }
    assert_eq!(ctrl.get_param_normalized(3), 0.25f64.to_bits());
}

#[test]
fn component_state_short_stream_applies_prefix() {
    let mut ctrl = PiSynthController::new(
        ParameterRegistry::define(vec![named_def(3, "A", 0.25), named_def(9, "B", 0.75)]).unwrap(),
    );
    assert!(ctrl.initialize().is_ok());
    let mut blob = Vec::new();
    blob.extend_from_slice(&0.875f64.to_le_bytes());
    blob.extend_from_slice(&[1, 2, 3]);
    match ctrl.set_component_state(&blob) {
        Err(e) => assert_eq!(e, CoreError::ReadFailure),
        Ok(_) => panic!("a short stream must be fatal"),
    }
    // The value read before the shortage stays applied; the rest is kept.
    assert_eq!(ctrl.get_param_normalized(3), 0.875f64.to_bits());
    assert_eq!(ctrl.get_param_normalized(9), 0.75f64.to_bits());
}

#[test]
fn two_parameter_scenario() {
    // Registry: gain (plain 0..1, linear, default 0.5) and cutoff
    // (plain 20..20000, logarithmic, default normalized 0.5).
    let gain = ParameterDefinition {
        id: 0,
        title: "Gain".to_owned(),
        short_title: "Gain".to_owned(),
        units: "".to_owned(),
        step_count: 0,
        default_value_bits: 0.5f64.to_bits(),
        can_automate: true,
        rule: ConversionRule {
            kind: CurveKind::Linear,
            min_bits: 0.0f64.to_bits(),
            max_bits: 1.0f64.to_bits(),
        },
    };
    let cutoff = ParameterDefinition {
        id: 1,
        title: "Cutoff".to_owned(),
        short_title: "Cut".to_owned(),
        units: "Hz".to_owned(),
        step_count: 0,
        default_value_bits: 0.5f64.to_bits(),
        can_automate: true,
        rule: ConversionRule {
            kind: CurveKind::Logarithmic,
            min_bits: 20.0f64.to_bits(),
            max_bits: 20000.0f64.to_bits(),
        },
    };
    let reg = ParameterRegistry::define(vec![gain, cutoff]).unwrap();
    let mut ctrl = PiSynthController::new(reg);
    assert!(ctrl.initialize().is_ok());

    assert_eq!(ctrl.get_param_normalized(0), 0.5f64.to_bits());

    // The logarithmic rule handed out for cutoff evaluates at n = 0.5 to
    // min * (max / min) ^ n ≈ 632.46 Hz.
    let rule = ctrl.conversion_rule(1).unwrap();
    let min = f64::from_bits(rule.min_bits);
    let max = f64::from_bits(rule.max_bits);
    let plain = min * (max / min).powf(0.5);
    assert!((plain - 632.4555320336759).abs() < 1e-9);
    assert!((plain - 632.46).abs() < 0.01);

    assert!(ctrl.set_param_normalized(0, 0.8f64.to_bits()));
    assert_eq!(ctrl.get_param_normalized(0), 0.8f64.to_bits());
    assert!(!ctrl.set_param_normalized(77, 0.1f64.to_bits()));
    assert_eq!(ctrl.get_param_normalized(77), 0.0f64.to_bits());

    // Serialize both parameters and rehydrate a second controller: gain
    // comes back as 0.8 and cutoff as 0.5, exactly.
    let reg2 = ParameterRegistry::define(vec![
        ParameterDefinition { units: "".to_owned(), ..named_def_like(0, "Gain") },
        ParameterDefinition { units: "Hz".to_owned(), ..named_def_like(1, "Cutoff") },
    ])
    .unwrap();
    let mut mirror = ParameterStore::initialized(&reg2);
    assert!(mirror.set(0, ctrl.get_param_normalized(0)));
    assert!(mirror.set(1, ctrl.get_param_normalized(1)));
    let blob = write_state(&mirror, &reg2);

    let reg3 = ParameterRegistry::define(vec![
        ParameterDefinition { units: "".to_owned(), ..named_def_like(0, "Gain") },
        ParameterDefinition { units: "Hz".to_owned(), ..named_def_like(1, "Cutoff") },
    ])
    .unwrap();
    let mut fresh = PiSynthController::new(reg3);
    assert!(fresh.initialize().is_ok());
    assert!(fresh.set_component_state(&blob).is_ok());
    assert_eq!(f64::from_bits(fresh.get_param_normalized(0)), 0.8);
    assert_eq!(f64::from_bits(fresh.get_param_normalized(1)), 0.5);
}

fn named_def_like(id: u32, title: &str) -> ParameterDefinition {
    ParameterDefinition {
        id,
        title: title.to_owned(),
        short_title: title.to_owned(),
        units: "".to_owned(),
        step_count: 0,
        default_value_bits: 0.0f64.to_bits(),
        can_automate: true,
        rule: ConversionRule {
            kind: CurveKind::Linear,
            min_bits: 0.0f64.to_bits(),
            max_bits: 1.0f64.to_bits(),
        },
    }
}

#[test]
fn factory_class_enumeration() {
    let factory = PiSynthPluginFactory::new();
    assert_eq!(factory.count_classes(), 2);
    let info = factory.get_class_info(0).unwrap();
    assert_eq!(info.name, "PiSynth");
    assert_eq!(info.category, "Audio Module Class");
    assert_eq!(info.cid, factory.processor_cid());
    let info = factory.get_class_info(1).unwrap();
    assert_eq!(info.name, "PiSynth Controller");
    assert_eq!(info.category, "Component Controller Class");
    assert_eq!(info.cid, factory.controller_cid());
    match factory.get_class_info(2) {
        Err(e) => assert_eq!(e, CoreError::InvalidArgument),
        Ok(_) => panic!("index out of range must be invalid"),
    }
}

#[test]
fn factory_extended_class_info() {
    let factory = PiSynthPluginFactory::new();
    let info = factory.get_class_info_ext(0).unwrap();
    assert_eq!(info.class_flags, 1);
    assert_eq!(info.subcategories, "Instrument|Synth");
    assert_eq!(info.vendor, "PiSynth Audio");
    assert_eq!(info.version, "1.0.0");
    let info = factory.get_class_info_ext(1).unwrap();
    assert_eq!(info.class_flags, 0);
    assert_eq!(info.name, "PiSynth Controller");
    assert!(factory.get_class_info_ext(-1).is_err());
}

#[test]
fn factory_create_instance_decision() {
    let factory = PiSynthPluginFactory::new();
    assert_eq!(factory.create_instance(factory.processor_cid()).unwrap(), ClassKind::Processor);
    assert_eq!(factory.create_instance(factory.controller_cid()).unwrap(), ClassKind::Controller);
    let stranger = Guid { w0: 1, w1: 2, w2: 3, w3: 4 };
    match factory.create_instance(stranger) {
        Err(e) => assert_eq!(e, CoreError::NotFound),
        Ok(_) => panic!("an unrecognized identifier must report not-found"),
    }
}

#[test]
fn factory_info_identity() {
    let factory = PiSynthPluginFactory::new();
    let info = factory.get_factory_info();
    assert_eq!(info.vendor, "PiSynth Audio");
    assert_eq!(info.url, "https://pisynth.example");
    assert_eq!(info.email, "hello@pisynth.example");
    assert_eq!(info.flags, 8);
}
