use egui_backend_selector::backend::Backend;
use egui_backend_selector::probe::{
    determine_backend, is_local_display, linux_backend, probe_windows, windows_backend, Platform,
    ProbeQuery, WindowsFacts, MIN_CONTEXT_VERSION_MAJOR, MIN_CONTEXT_VERSION_MINOR,
};
use std::cell::RefCell;

fn healthy() -> WindowsFacts {
    WindowsFacts {
        off_main_thread: false,
        remote_session: false,
        hypervisor: false,
        vmware_driver: false,
        virtualbox_driver: false,
        rendering_context: true,
    }
}

fn answer(facts: &WindowsFacts, q: ProbeQuery) -> bool {
    match q {
        ProbeQuery::OffMainThread => facts.off_main_thread,
        ProbeQuery::RemoteSession => facts.remote_session,
        ProbeQuery::Hypervisor => facts.hypervisor,
        ProbeQuery::VmwareDriver => facts.vmware_driver,
        ProbeQuery::VirtualBoxDriver => facts.virtualbox_driver,
        ProbeQuery::RenderingContext => facts.rendering_context,
    }
}

fn asked_under(facts: WindowsFacts) -> (Option<Backend>, Vec<ProbeQuery>) {
    let asked: RefCell<Vec<ProbeQuery>> = RefCell::new(Vec::new());
    let r = probe_windows(|q: ProbeQuery| {
        asked.borrow_mut().push(q);
        answer(&facts, q)
    });
    (r, asked.into_inner())
}

#[test]
fn local_display_numbers_are_local() {
    assert!(is_local_display(":0"));
    assert!(is_local_display(":0.0"));
    assert!(is_local_display(":"));
    assert!(is_local_display(":10.1"));
}

#[test]
fn local_socket_addresses_are_local() {
    assert!(is_local_display("/unix:0"));
    assert!(is_local_display("myhost/unix:0"));
    assert!(is_local_display("a/unix:"));
    assert!(is_local_display("//unix:/unix:"));
}

#[test]
fn forwarded_displays_are_remote() {
    assert!(!is_local_display("localhost:10.0"));
    assert!(!is_local_display("192.168.1.5:0"));
    assert!(!is_local_display("unix:0"));
    assert!(!is_local_display("host/unix"));
    assert!(!is_local_display("/unix"));
    assert!(!is_local_display("/uni:x:"));
    assert!(!is_local_display(""));
    assert!(!is_local_display("h\u{f6}st:0"));
}

#[test]
fn multibyte_display_names_are_read_by_character() {
    assert!(is_local_display("h\u{f6}st/unix:0"));
    assert!(is_local_display(":\u{4e16}"));
    assert!(!is_local_display("\u{4e16}:0"));
}

#[test]
fn linux_recommendations() {
    assert_eq!(linux_backend(None), Backend::Eframe);
    assert_eq!(linux_backend(Some(":0")), Backend::Eframe);
    assert_eq!(linux_backend(Some("host/unix:1")), Backend::Eframe);
    assert_eq!(linux_backend(Some("localhost:10.0")), Backend::SoftwareBackend);
    assert_eq!(linux_backend(Some("")), Backend::SoftwareBackend);
}

#[test]
fn windows_recommendations() {
    assert_eq!(windows_backend(healthy()), Some(Backend::Eframe));
    assert_eq!(windows_backend(WindowsFacts { off_main_thread: true, ..healthy() }), None);
    assert_eq!(
        windows_backend(WindowsFacts { remote_session: true, ..healthy() }),
        Some(Backend::SoftwareBackend)
    );
    assert_eq!(
        windows_backend(WindowsFacts { hypervisor: true, ..healthy() }),
        Some(Backend::Eframe)
    );
    assert_eq!(
        windows_backend(WindowsFacts { hypervisor: true, vmware_driver: true, ..healthy() }),
        Some(Backend::SoftwareBackend)
    );
    assert_eq!(
        windows_backend(WindowsFacts { hypervisor: true, virtualbox_driver: true, ..healthy() }),
        Some(Backend::SoftwareBackend)
    );
    assert_eq!(
        windows_backend(WindowsFacts { vmware_driver: true, virtualbox_driver: true, ..healthy() }),
        Some(Backend::Eframe)
    );
    assert_eq!(
        windows_backend(WindowsFacts { rendering_context: false, ..healthy() }),
        Some(Backend::SoftwareBackend)
    );
    assert_eq!(
        windows_backend(WindowsFacts {
            off_main_thread: true,
            remote_session: true,
            ..healthy()
        }),
        None
    );
}

#[test]
fn windows_probe_asks_in_order() {
    let (r, asked) = asked_under(healthy());
    assert_eq!(r, Some(Backend::Eframe));
    assert_eq!(
        asked,
        vec![
            ProbeQuery::OffMainThread,
            ProbeQuery::RemoteSession,
            ProbeQuery::Hypervisor,
            ProbeQuery::RenderingContext
        ]
    );

    let (r, asked) = asked_under(WindowsFacts { hypervisor: true, ..healthy() });
    assert_eq!(r, Some(Backend::Eframe));
    assert_eq!(
        asked,
        vec![
            ProbeQuery::OffMainThread,
            ProbeQuery::RemoteSession,
            ProbeQuery::Hypervisor,
            ProbeQuery::VmwareDriver,
            ProbeQuery::VirtualBoxDriver,
            ProbeQuery::RenderingContext
        ]
    );
}

#[test]
fn windows_probe_stops_at_the_first_settling_answer() {
    let (r, asked) = asked_under(WindowsFacts { off_main_thread: true, ..healthy() });
    assert_eq!(r, None);
    assert_eq!(asked, vec![ProbeQuery::OffMainThread]);

    let (r, asked) = asked_under(WindowsFacts { remote_session: true, ..healthy() });
    assert_eq!(r, Some(Backend::SoftwareBackend));
    assert_eq!(asked, vec![ProbeQuery::OffMainThread, ProbeQuery::RemoteSession]);

    let (r, asked) =
        asked_under(WindowsFacts { hypervisor: true, vmware_driver: true, ..healthy() });
    assert_eq!(r, Some(Backend::SoftwareBackend));
    assert_eq!(
        asked,
        vec![
            ProbeQuery::OffMainThread,
            ProbeQuery::RemoteSession,
            ProbeQuery::Hypervisor,
            ProbeQuery::VmwareDriver
        ]
    );

    let (r, asked) =
        asked_under(WindowsFacts { hypervisor: true, virtualbox_driver: true, ..healthy() });
    assert_eq!(r, Some(Backend::SoftwareBackend));
    assert_eq!(
        asked,
        vec![
            ProbeQuery::OffMainThread,
            ProbeQuery::RemoteSession,
            ProbeQuery::Hypervisor,
            ProbeQuery::VmwareDriver,
            ProbeQuery::VirtualBoxDriver
        ]
    );
}

#[test]
fn windows_probe_agrees_with_the_table() {
    for bits in 0u32..64 {
        let facts = WindowsFacts {
            off_main_thread: bits & 1 != 0,
            remote_session: bits & 2 != 0,
            hypervisor: bits & 4 != 0,
            vmware_driver: bits & 8 != 0,
            virtualbox_driver: bits & 16 != 0,
            rendering_context: bits & 32 != 0,
        };
        let (r, _) = asked_under(facts);
        assert_eq!(r, windows_backend(facts));
    }
}

#[test]
fn determine_backend_by_platform() {
    let never = |_q: ProbeQuery| -> bool { panic!("no question is due here") };
    assert_eq!(
        determine_backend(Platform::OtherUnix, Some("localhost:10.0"), never),
        Some(Backend::Eframe)
    );
    assert_eq!(
        determine_backend(Platform::Linux, Some("localhost:10.0"), never),
        Some(Backend::SoftwareBackend)
    );
    assert_eq!(determine_backend(Platform::Linux, Some(":1"), never), Some(Backend::Eframe));
    assert_eq!(determine_backend(Platform::Linux, None, never), Some(Backend::Eframe));
    let facts = WindowsFacts { remote_session: true, ..healthy() };
    assert_eq!(
        determine_backend(Platform::Windows, Some(":0"), |q| answer(&facts, q)),
        Some(Backend::SoftwareBackend)
    );
    let facts = WindowsFacts { off_main_thread: true, ..healthy() };
    assert_eq!(determine_backend(Platform::Windows, None, |q| answer(&facts, q)), None);
}

#[test]
fn driver_markers() {
    assert_eq!(
        ProbeQuery::VmwareDriver.marker_path(),
        Some("C:\\Windows\\System32\\vm3dgl64.dll")
    );
    assert_eq!(
        ProbeQuery::VirtualBoxDriver.marker_path(),
        Some("C:\\Windows\\System32\\VBoxGL.dll")
    );
    assert_eq!(ProbeQuery::Hypervisor.marker_path(), None);
    assert_eq!(ProbeQuery::OffMainThread.marker_path(), None);
    assert_eq!(ProbeQuery::RemoteSession.marker_path(), None);
    assert_eq!(ProbeQuery::RenderingContext.marker_path(), None);
}

#[test]
fn minimum_context_version() {
    assert_eq!((MIN_CONTEXT_VERSION_MAJOR, MIN_CONTEXT_VERSION_MINOR), (3, 2));
}
