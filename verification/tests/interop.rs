use egui_backend_selector::backend::Backend;
use egui_backend_selector::interop::{BackendInterop, TextureId};
use std::cell::Cell;

fn software() -> BackendInterop<&'static str, u32> {
    BackendInterop::SoftwareBackend("software handle")
}

fn hardware() -> BackendInterop<&'static str, u32> {
    BackendInterop::Eframe(17)
}

#[test]
fn facade_reports_its_backend() {
    assert_eq!(software().backend(), Backend::SoftwareBackend);
    assert_eq!(hardware().backend(), Backend::Eframe);
}

#[test]
fn facade_names_are_fixed() {
    assert_eq!(software().backend_name(), "Software Backend");
    assert_eq!(hardware().backend_name(), "eframe");
    assert_ne!(software().backend_name(), hardware().backend_name());
}

#[test]
fn facade_is_never_on_the_web() {
    assert!(!software().is_web());
    assert!(!hardware().is_web());
}

#[test]
fn software_variant_returns_the_dummy_texture() {
    let calls = Cell::new(0u32);
    let mut facade = software();
    let id = facade.register_native_glow_texture(99u8, |_frame: &mut u32, _native: u8| {
        calls.set(calls.get() + 1);
        TextureId::User(5)
    });
    assert_eq!(id, TextureId::User(0));
    assert_eq!(calls.get(), 0);
    assert_eq!(facade.backend(), Backend::SoftwareBackend);
}

#[test]
fn hardware_variant_registers_the_texture() {
    let mut facade = hardware();
    let id = facade.register_native_glow_texture(99u8, |frame: &mut u32, native: u8| {
        *frame += 1;
        TextureId::User(u64::from(*frame) + u64::from(native))
    });
    assert_eq!(id, TextureId::User(117));
    let again = facade.register_native_glow_texture(1u8, |frame: &mut u32, _native: u8| {
        TextureId::Managed(u64::from(*frame))
    });
    assert_eq!(again, TextureId::Managed(18));
    assert_eq!(facade.backend(), Backend::Eframe);
}

#[test]
fn software_variant_has_no_graphics_context() {
    let calls = Cell::new(0u32);
    let mut facade = software();
    let context: Option<String> = facade.gl(|_frame: &mut u32| {
        calls.set(calls.get() + 1);
        Some(String::from("context"))
    });
    assert_eq!(context, None);
    assert_eq!(calls.get(), 0);
}

#[test]
fn hardware_variant_hands_out_its_graphics_context() {
    let mut facade = hardware();
    let context: Option<String> = facade.gl(|frame: &mut u32| Some(format!("context {frame}")));
    assert_eq!(context, Some(String::from("context 17")));
    let context: Option<String> = facade.gl(|_frame: &mut u32| None);
    assert_eq!(context, None);
    let context: Option<&u32> = facade.gl(|frame| Some(&*frame));
    assert_eq!(context, Some(&17));
}

#[test]
fn integration_info_comes_from_the_backend_at_hand() {
    let facade = software();
    let info: &usize = (&facade).into(|_handle: &&str| &16usize, |_frame: &u32| &0usize);
    assert_eq!(*info, 16);
    let facade = hardware();
    let info: &u32 = (&facade).into(|_handle| &0u32, |frame| frame);
    assert_eq!(*info, 17);
}

#[test]
fn storage_comes_from_the_backend_at_hand() {
    let facade = software();
    let store: Option<usize> = facade.storage(|handle: &&str| Some(handle.len()), |_frame| None);
    assert_eq!(store, Some(15));
    let store: Option<usize> = facade.storage(|_handle| None, |_frame| Some(1));
    assert_eq!(store, None);
    let facade = hardware();
    let store: Option<u32> = facade.storage(|_handle| None, |frame: &u32| Some(*frame));
    assert_eq!(store, Some(17));
}

#[test]
fn storage_for_writing_comes_from_the_backend_at_hand() {
    let mut facade = hardware();
    {
        let store: Option<&mut u32> = facade.storage_mut(|_handle| None, |frame| Some(frame));
        *store.unwrap() = 40;
    }
    let seen: Option<u32> = facade.storage(|_handle| None, |frame: &u32| Some(*frame));
    assert_eq!(seen, Some(40));
    assert_eq!(facade.backend(), Backend::Eframe);

    let mut facade = software();
    let store: Option<&mut u32> = facade.storage_mut(|_handle| None, |frame| Some(frame));
    assert!(store.is_none());
}

#[test]
fn software_variant_never_calls_the_hardware_closures() {
    let mut facade = software();
    let id = facade.register_native_glow_texture(1u8, |_frame: &mut u32, _native: u8| {
        panic!("the software backend registers nothing")
    });
    assert_eq!(id, TextureId::User(0));
    let context: Option<u8> = facade.gl(|_frame: &mut u32| panic!("no context to take"));
    assert_eq!(context, None);
    let store: Option<u8> = facade.storage_mut(
        |_handle| Some(3),
        |_frame| panic!("no frame to take a store from"),
    );
    assert_eq!(store, Some(3));
}
