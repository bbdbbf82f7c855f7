use imix_adc::{
    build_channel_table, AdcComponent, AdcHardware, AssemblyError, Kernel, Region, StaticArena,
    ADC_BUFFER_BYTES, ASSEMBLY_BYTES, CHANNEL_TABLE_BYTES, DRIVER_BYTES, NUM_CHANNELS,
    SAM4L_ADC_INPUTS,
};

fn regions_of(adc: &imix_adc::Adc) -> Vec<Region> {
    vec![
        adc.channel_table(),
        adc.buffer(0),
        adc.buffer(1),
        adc.buffer(2),
        adc.location(),
    ]
}

fn disjoint(a: Region, b: Region) -> bool {
    a.start + a.len <= b.start || b.start + b.len <= a.start
}

#[test]
fn assembly_at_boot_binds_returned_driver() {
    let mut component = AdcComponent::new(Kernel::new());
    let mut storage = StaticArena::new(4096);
    let mut adc0 = AdcHardware::new(SAM4L_ADC_INPUTS);
    let adc = component.finalize(&mut storage, &mut adc0).unwrap();
    assert_eq!(adc.channels().len(), 6);
    assert_eq!(adc0.client(), Some(adc.address()));
    assert_eq!(adc.address(), 24 + 3 * 256);
    assert_eq!(adc.location(), Region { start: 792, len: 64 });
    assert!(component.is_finalized());
    assert_eq!(storage.used(), ASSEMBLY_BYTES);
    assert_eq!(storage.remaining(), 4096 - 856);
}

#[test]
fn channel_table_is_fixed_and_distinct() {
    let mut component = AdcComponent::new(Kernel::new());
    let mut storage = StaticArena::new(ASSEMBLY_BYTES);
    let mut adc0 = AdcHardware::new(SAM4L_ADC_INPUTS);
    let adc = component.finalize(&mut storage, &mut adc0).unwrap();
    let nums: Vec<u8> = adc.channels().iter().map(|c| c.chan_num).collect();
    assert_eq!(nums, vec![1, 2, 3, 4, 5, 6]);
    for i in 0..NUM_CHANNELS {
        for j in 0..NUM_CHANNELS {
            if i != j {
                assert_ne!(adc.channels()[i], adc.channels()[j]);
            }
        }
    }
}

#[test]
fn second_finalize_is_refused() {
    let mut component = AdcComponent::new(Kernel::new());
    let mut storage = StaticArena::new(4096);
    let mut adc0 = AdcHardware::new(SAM4L_ADC_INPUTS);
    let adc = component.finalize(&mut storage, &mut adc0).unwrap();
    let again = component.finalize(&mut storage, &mut adc0);
    assert_eq!(again.err(), Some(AssemblyError::AlreadyAssembled));
    assert_eq!(adc0.client(), Some(adc.address()));
    assert_eq!(storage.used(), ASSEMBLY_BYTES);
    assert_eq!(component.kernel().grant_count(), 1);
}

#[test]
fn other_component_cannot_rebind_peripheral() {
    let mut first = AdcComponent::new(Kernel::new());
    let mut storage = StaticArena::new(4096);
    let mut adc0 = AdcHardware::new(SAM4L_ADC_INPUTS);
    let adc = first.finalize(&mut storage, &mut adc0).unwrap();
    let mut second = AdcComponent::new(Kernel::new());
    let again = second.finalize(&mut storage, &mut adc0);
    assert_eq!(again.err(), Some(AssemblyError::ClientAlreadyBound));
    assert!(!second.is_finalized());
    assert_eq!(second.kernel().grant_count(), 0);
    assert_eq!(adc0.client(), Some(adc.address()));
    assert_eq!(storage.used(), ASSEMBLY_BYTES);
}

#[test]
fn set_client_is_one_shot() {
    let mut storage = StaticArena::new(4096);
    let mut first = AdcComponent::new(Kernel::new());
    let mut adc0 = AdcHardware::new(SAM4L_ADC_INPUTS);
    let a = first.finalize(&mut storage, &mut adc0).unwrap();
    let mut second = AdcComponent::new(Kernel::new());
    let mut other = AdcHardware::new(SAM4L_ADC_INPUTS);
    let b = second.finalize(&mut storage, &mut other).unwrap();
    assert_eq!(adc0.set_client(&b), Err(AssemblyError::ClientAlreadyBound));
    assert_eq!(adc0.client(), Some(a.address()));
    assert_ne!(a.address(), b.address());
}

#[test]
fn buffers_are_disjoint_and_fixed_size() {
    let mut component = AdcComponent::new(Kernel::new());
    let mut storage = StaticArena::new(4096);
    let mut adc0 = AdcHardware::new(SAM4L_ADC_INPUTS);
    let adc = component.finalize(&mut storage, &mut adc0).unwrap();
    for i in 0..3 {
        assert_eq!(adc.buffer(i).len, ADC_BUFFER_BYTES);
    }
    assert_eq!(adc.buffer(0), Region { start: 24, len: 256 });
    assert_eq!(adc.buffer(1), Region { start: 280, len: 256 });
    assert_eq!(adc.buffer(2), Region { start: 536, len: 256 });
    let regions = regions_of(&adc);
    for i in 0..regions.len() {
        for j in 0..regions.len() {
            if i != j {
                assert!(disjoint(regions[i], regions[j]));
            }
        }
    }
}

#[test]
fn two_assemblies_do_not_alias() {
    let mut storage = StaticArena::new(2 * ASSEMBLY_BYTES);
    let mut kernel_a = AdcComponent::new(Kernel::new());
    let mut adc0 = AdcHardware::new(SAM4L_ADC_INPUTS);
    let a = kernel_a.finalize(&mut storage, &mut adc0).unwrap();
    let mut kernel_b = AdcComponent::new(Kernel::new());
    let mut adc1 = AdcHardware::new(SAM4L_ADC_INPUTS);
    let b = kernel_b.finalize(&mut storage, &mut adc1).unwrap();
    for ra in regions_of(&a) {
        for rb in regions_of(&b) {
            assert!(disjoint(ra, rb));
        }
    }
    assert_eq!(storage.remaining(), 0);
}

#[test]
fn insufficient_static_storage_builds_nothing() {
    let mut component = AdcComponent::new(Kernel::new());
    let mut storage = StaticArena::new(ASSEMBLY_BYTES - 1);
    let mut adc0 = AdcHardware::new(SAM4L_ADC_INPUTS);
    let r = component.finalize(&mut storage, &mut adc0);
    assert_eq!(r.err(), Some(AssemblyError::OutOfStaticMemory));
    assert_eq!(adc0.client(), None);
    assert_eq!(storage.used(), 0);
    assert_eq!(component.kernel().grant_count(), 0);
    assert!(!component.is_finalized());
}

#[test]
fn exact_storage_is_enough() {
    let mut component = AdcComponent::new(Kernel::new());
    let mut storage = StaticArena::new(ASSEMBLY_BYTES);
    let mut adc0 = AdcHardware::new(SAM4L_ADC_INPUTS);
    assert!(component.finalize(&mut storage, &mut adc0).is_ok());
    assert_eq!(storage.remaining(), 0);
}

#[test]
fn peripheral_with_too_few_inputs_is_refused() {
    let mut component = AdcComponent::new(Kernel::new());
    let mut storage = StaticArena::new(4096);
    let mut adc0 = AdcHardware::new(6);
    let r = component.finalize(&mut storage, &mut adc0);
    assert_eq!(r.err(), Some(AssemblyError::InsufficientChannels));
    assert_eq!(adc0.client(), None);
    assert_eq!(storage.used(), 0);
    let mut adc1 = AdcHardware::new(7);
    assert!(component.finalize(&mut storage, &mut adc1).is_ok());
}

#[test]
fn channel_table_needs_every_wired_input() {
    assert_eq!(build_channel_table(0), Err(AssemblyError::InsufficientChannels));
    assert_eq!(build_channel_table(6), Err(AssemblyError::InsufficientChannels));
    let t = build_channel_table(7).unwrap();
    assert_eq!(t.len(), 6);
    assert_eq!(t[0].chan_num, 1);
    assert_eq!(t[5].chan_num, 6);
}

#[test]
fn grant_comes_from_component_kernel() {
    let mut component = AdcComponent::new(Kernel::new());
    let mut storage = StaticArena::new(4096);
    let mut adc0 = AdcHardware::new(SAM4L_ADC_INPUTS);
    assert_eq!(component.kernel().grant_count(), 0);
    let adc = component.finalize(&mut storage, &mut adc0).unwrap();
    assert_eq!(adc.grant_num(), 0);
    assert_eq!(component.kernel().grant_count(), 1);
}

#[test]
fn layout_constants() {
    assert_eq!(CHANNEL_TABLE_BYTES, 24);
    assert_eq!(ADC_BUFFER_BYTES, 256);
    assert_eq!(DRIVER_BYTES, 64);
    assert_eq!(ASSEMBLY_BYTES, 856);
}

#[test]
fn arena_reserves_in_order() {
    let mut storage = StaticArena::new(10);
    assert_eq!(storage.capacity(), 10);
    assert_eq!(storage.reserve(4), Some(Region { start: 0, len: 4 }));
    assert_eq!(storage.reserve(6), Some(Region { start: 4, len: 6 }));
    assert_eq!(storage.reserve(1), None);
    assert_eq!(storage.used(), 10);
    assert_eq!(storage.reserve(0), Some(Region { start: 10, len: 0 }));
}
