//! Behavior of the subsystems around the capability core: paging,
//! drivers, networking, services, and the rest of the kernel surface.

use suraksha_core::capability::{CapabilityRegistry, CapabilityType, PermissionSet, ResourceId};
use suraksha_core::ai::{AiModel, ModelType, Quantization};
use suraksha_core::allocator::BuddyAllocator;
use suraksha_core::android::{AndroidConfig, AndroidError, AndroidRuntime, AndroidStatus};
use suraksha_core::boot::{BootInfo, Platform};
use suraksha_core::crypto::hash::{shake256, shake256_256};
use suraksha_core::crypto::pqc::{ml_dsa, ml_kem, slh_dsa};
use suraksha_core::crypto::symmetric::{decrypt, encrypt, Key, Nonce};
use suraksha_core::drivers::display::{MipiDsiDriver, PixelFormat as PanelFormat, Resolution};
use suraksha_core::drivers::framebuffer::{Color, Framebuffer, FramebufferInfo, PixelFormat};
use suraksha_core::drivers::keyboard::{KeyCode, KeyEvent, Keyboard, Scancode};
use suraksha_core::drivers::mouse::{Mouse, MouseButton, MouseEventType};
use suraksha_core::drivers::network::{NetworkType, WiFiDriver};
use suraksha_core::drivers::storage::{UfsDriver, UfsVersion};
use suraksha_core::drivers::{Device, DeviceManager, DeviceType, DriverError};
use suraksha_core::fs;
use suraksha_core::fs::encrypted::{decrypt_file, derive_file_key, encrypt_file};
use suraksha_core::fs::vfs::{FilesystemType, MountFlags, MountTable};
use suraksha_core::fs::FsError;
use suraksha_core::init::{InitError, InitSystem, RestartPolicy, ServiceConfig, ServiceState, ServiceType};
use suraksha_core::memory::{AddressRange, MemoryManager, Permissions};
use suraksha_core::net::{DnsResolver, IpAddr, NetError, Protocol, Socket, SocketAddr, SocketType, VpnConnection, VpnCredentials};
use suraksha_core::power::{BatteryStatus, PowerManager, PowerState};
use suraksha_core::process::context::Context;
use suraksha_core::process::scheduler::{Priority as TaskPriority, Scheduler as RoundRobinScheduler};
use suraksha_core::scheduler::{Priority, Scheduler};
use suraksha_core::security::{create_sandbox, SandboxConfig, SecurityEvent, SecurityMonitor, SecurityPolicy};
use suraksha_core::syscall::{handle_syscall, Syscall};
use suraksha_core::tcp::{TcpConnection, TcpError, TcpFlags, TcpHeader, TcpStack, TcpState};
use suraksha_core::trap::{decode_cause, TrapCause};
use suraksha_core::uart::Uart;
use suraksha_core::ui::{Color as UiColor, ElementType, UiElement, UiRenderer, UiTheme};
use suraksha_core::page_table::{PTEFlags, PageTable, PageTableEntry, VirtAddr};

fn registry_with_root() -> (CapabilityRegistry, suraksha_core::capability::Capability) {
    let mut reg = CapabilityRegistry::new();
    let root = reg.create_root();
    (reg, root)
}

#[test]
fn kernel_identity() {
    assert_eq!(suraksha_core::name(), "SurakshaOS");
    assert_eq!(suraksha_core::version(), "0.1.0");
}

#[test]
fn virtual_addresses_decompose() {
    let va = VirtAddr::new(0x8020_1234);
    assert_eq!(va.as_usize(), 0x8020_1234);
    assert_eq!(va.offset(), 0x234);
    assert_eq!(va.vpn(0), (0x8020_1234 >> 12) & 0x1FF);
    assert_eq!(va.vpn(2), (0x8020_1234 >> 30) & 0x1FF);
    assert_eq!(va.align_down().as_usize(), 0x8020_1000);
    assert_eq!(va.align_up().as_usize(), 0x8020_2000);
    let aligned = VirtAddr::new(0x8020_1000);
    assert_eq!(aligned.align_up().as_usize(), 0x8020_1000);
}

#[test]
fn page_table_entries_pack_and_unpack() {
    let mut flags = PTEFlags::new();
    flags.set(PTEFlags::VALID);
    flags.set(PTEFlags::READ);
    flags.set(PTEFlags::WRITE);
    let entry = PageTableEntry::from_ppn(0x12345, flags);
    assert!(entry.is_valid());
    assert!(entry.is_leaf());
    assert_eq!(entry.ppn(), 0x12345);
    assert_eq!(entry.phys_addr().as_usize(), 0x12345 << 12);
    assert_eq!(entry.flags().bits(), flags.bits());

    flags.clear(PTEFlags::WRITE);
    assert!(!flags.contains(PTEFlags::WRITE));
    assert!(flags.contains(PTEFlags::READ));

    let mut table = PageTable::new();
    assert!(!table.entry(0).is_valid());
    table.entry_mut(7).set(0x99, PTEFlags::with_flags(PTEFlags::VALID));
    assert!(table.entry(7).is_valid());
    table.clear();
    assert!(!table.entry(7).is_valid());
}

#[test]
fn keyboard_types_hello() {
    let mut kb = Keyboard::new();
    let mut typed = String::new();
    for code in [0x23u8, 0xA3, 0x12, 0x92, 0x26, 0xA6, 0x26, 0xA6, 0x18, 0x98] {
        let event = kb.process_scancode(Scancode::new(code)).unwrap();
        if let Some(ch) = event.to_ascii() {
            typed.push(ch);
        }
    }
    assert_eq!(typed, "hello");
}

#[test]
fn keyboard_shift_and_caps() {
    let mut kb = Keyboard::new();
    // shift down, letter a, shift up, letter a
    let shifted = kb.process_scancode(Scancode::new(0x2A)).unwrap();
    assert_eq!(shifted.keycode, KeyCode::LeftShift);
    let upper = kb.process_scancode(Scancode::new(0x1E)).unwrap();
    assert_eq!(upper.to_ascii(), Some('A'));
    kb.process_scancode(Scancode::new(0xAA)).unwrap();
    let lower = kb.process_scancode(Scancode::new(0x1E)).unwrap();
    assert_eq!(lower.to_ascii(), Some('a'));
    // caps lock toggles
    kb.process_scancode(Scancode::new(0x3A)).unwrap();
    let caps = kb.process_scancode(Scancode::new(0x1E)).unwrap();
    assert_eq!(caps.to_ascii(), Some('A'));
}

#[test]
fn keyboard_event_queue_is_fifo() {
    let mut kb = Keyboard::new();
    assert!(kb.is_empty());
    assert_eq!(kb.pop_event(), None);
    kb.push_event(KeyEvent::new(KeyCode::A, true));
    kb.push_event(KeyEvent::new(KeyCode::B, true));
    assert!(!kb.is_empty());
    assert_eq!(kb.pop_event().unwrap().keycode, KeyCode::A);
    assert_eq!(kb.get_event().unwrap().keycode, KeyCode::B);
    assert!(kb.is_empty());
}

#[test]
fn mouse_tracks_position_and_buttons() {
    let mut mouse = Mouse::new(800, 600);
    // move right, move down, press left, release left, right press + move
    let packets: [[u8; 3]; 5] = [
        [0x08, 10, 0],
        [0x08, 0, 10],
        [0x09, 0, 0],
        [0x08, 0, 0],
        [0x0A, 5, 5],
    ];
    let mut events = Vec::new();
    for p in &packets {
        if let Some(e) = mouse.process_packet(p) {
            events.push(e);
        }
    }
    // moving down means a negative screen delta in the packet encoding,
    // so [0x08, 0, 10] moves the pointer up to the clamp at 0
    assert_eq!(events[0].event_type, MouseEventType::Move);
    assert!(mouse.is_button_pressed(MouseButton::Right));
    assert!(!mouse.is_button_pressed(MouseButton::Left));
    let (x, y) = mouse.position();
    assert_eq!(x, 15);
    assert_eq!(y, 0);
}

#[test]
fn framebuffer_pixel_round_trip() {
    let info = FramebufferInfo {
        addr: 0,
        width: 16,
        height: 16,
        stride: 64,
        format: PixelFormat::RGBA8888,
    };
    let mut fb = Framebuffer::new(info);
    let red = Color::rgb(255, 0, 0);
    fb.put_pixel(3, 5, red);
    assert_eq!(fb.get_pixel(3, 5), Some(red));
    assert_eq!(fb.get_pixel(4, 5), Some(Color::new(0, 0, 0, 0)));
    assert_eq!(fb.get_pixel(16, 5), None);
    assert_eq!(fb.get_pixel(3, 16), None);

    fb.clear(Color::rgb(9, 9, 9));
    assert_eq!(fb.get_pixel(0, 0), Some(Color::rgb(9, 9, 9)));
    assert_eq!(fb.get_pixel(15, 15), Some(Color::rgb(9, 9, 9)));

    fb.fill_rect(2, 2, 4, 4, red);
    assert_eq!(fb.get_pixel(2, 2), Some(red));
    assert_eq!(fb.get_pixel(5, 5), Some(red));
    assert_eq!(fb.get_pixel(6, 6), Some(Color::rgb(9, 9, 9)));

    fb.draw_line(0, 0, 10, 0, red);
    assert_eq!(fb.get_pixel(7, 0), Some(red));
    fb.draw_circle(8, 8, 3, red);
    assert_eq!(fb.get_pixel(11, 8), Some(red));
}

#[test]
fn framebuffer_rgb565_quantizes() {
    let info = FramebufferInfo {
        addr: 0,
        width: 4,
        height: 4,
        stride: 8,
        format: PixelFormat::RGB565,
    };
    let mut fb = Framebuffer::new(info);
    fb.put_pixel(1, 1, Color::rgb(0xFF, 0xFF, 0xFF));
    // the 5-6-5 packing keeps only the top bits of each channel
    assert_eq!(fb.get_pixel(1, 1), Some(Color::rgb(0xF8, 0xFC, 0xF8)));
}

#[test]
fn framebuffer_scroll_moves_rows_up() {
    let info = FramebufferInfo {
        addr: 0,
        width: 4,
        height: 4,
        stride: 12,
        format: PixelFormat::RGB888,
    };
    let mut fb = Framebuffer::new(info);
    let mark = Color::rgb(1, 2, 3);
    let fill = Color::rgb(7, 7, 7);
    fb.put_pixel(2, 1, mark);
    fb.scroll_up(1, fill);
    assert_eq!(fb.get_pixel(2, 0), Some(mark));
    assert_eq!(fb.get_pixel(0, 3), Some(fill));
}

#[test]
fn sockets_enforce_their_state_machine() {
    let (mut reg, root) = registry_with_root();
    let cap = reg
        .create_capability(
            CapabilityType::Network,
            ResourceId::Network { ip: [127, 0, 0, 1], port: 0 },
            PermissionSet::read_write(),
            Some(&root),
        )
        .unwrap();
    let mut sock = Socket::new(SocketType::Stream, Protocol::Tcp, cap, &mut reg).unwrap();
    let addr = SocketAddr { ip: IpAddr::v4(127, 0, 0, 1), port: 8080 };
    assert!(sock.bind(addr).is_ok());
    assert_eq!(sock.bind(addr), Err(NetError::AlreadyBound));
    assert_eq!(sock.send(&[1, 2, 3]), Err(NetError::NotConnected));
    assert!(sock.connect(addr).is_ok());
    assert_eq!(sock.connect(addr), Err(NetError::AlreadyConnected));
    assert_eq!(sock.send(&[1, 2, 3]), Ok(3));
    assert_eq!(sock.send_to(&[1], addr), Err(NetError::InvalidOperation));
    assert!(sock.listen(8).is_ok());
    assert_eq!(sock.accept().err(), Some(NetError::WouldBlock));
    assert!(sock.close().is_ok());
}

#[test]
fn socket_creation_needs_an_authorized_capability() {
    let (mut reg, root) = registry_with_root();
    let read_only = reg
        .create_capability(
            CapabilityType::Network,
            ResourceId::Network { ip: [0, 0, 0, 0], port: 0 },
            PermissionSet::read_only(),
            Some(&root),
        )
        .unwrap();
    let refused = Socket::new(SocketType::Datagram, Protocol::Udp, read_only, &mut reg);
    assert!(matches!(refused, Err(NetError::PermissionDenied)));
}

#[test]
fn dns_and_vpn() {
    let resolver = DnsResolver::new();
    let answer = resolver.resolve("example.com").unwrap();
    assert_eq!(answer, vec![IpAddr::v4(93, 184, 216, 34)]);

    let server = SocketAddr { ip: IpAddr::v4(10, 8, 0, 1), port: 1194 };
    let mut vpn = VpnConnection::new(server);
    let creds = VpnCredentials {
        username: String::from("user"),
        password: String::from("SECRET-REDACTED"),
    };
    assert!(vpn.connect(&creds).is_ok());
    assert!(vpn.disconnect().is_ok());
}

#[test]
fn tcp_connection_lifecycle_and_buffers() {
    let mut stack = TcpStack::new();
    let idx = stack.create_connection(8080, 80);
    assert_eq!(idx, 0);
    let conn = stack.connection_mut(idx);
    assert_eq!(conn.state, TcpState::Closed);
    assert!(conn.connect().is_ok());
    assert_eq!(conn.state, TcpState::SynSent);
    assert_eq!(conn.seq_num, 1000);
    assert_eq!(conn.connect(), Err(TcpError::InvalidState));

    let mut direct = TcpConnection::new(1, 2);
    assert_eq!(direct.send(&[1]), Err(TcpError::NotConnected));
    direct.state = TcpState::Established;
    assert_eq!(direct.send(&[1, 2, 3, 4]), Ok(4));
    direct.recv_buffer = vec![9, 8, 7];
    let mut buf = vec![0u8; 2];
    assert_eq!(direct.recv(&mut buf), Ok(2));
    assert_eq!(buf, vec![9, 8]);
    assert_eq!(direct.recv_buffer, vec![7]);
    assert!(direct.close().is_ok());
    assert_eq!(direct.state, TcpState::FinWait1);

    let mut passive = TcpConnection::new(3, 4);
    assert!(passive.listen().is_ok());
    assert_eq!(passive.state, TcpState::Listen);
}

#[test]
fn tcp_header_flags() {
    let mut header = TcpHeader::new(443, 51000);
    assert_eq!(header.get_flags(), 0);
    header.set_flags(TcpFlags::SYN | TcpFlags::ACK);
    assert_eq!(header.get_flags(), TcpFlags::SYN | TcpFlags::ACK);
}

#[test]
fn init_system_manages_services() {
    let config = |name: &str| ServiceConfig {
        name: String::from(name),
        service_type: ServiceType::Simple,
        exec_start: format!("/usr/bin/{}d", name),
        requires: Vec::new(),
        wants: Vec::new(),
        after: Vec::new(),
        restart: RestartPolicy::Always,
    };
    let mut init = InitSystem::new();
    init.register_service(config("network")).unwrap();
    init.register_service(config("display")).unwrap();
    init.register_service(config("audio")).unwrap();
    assert_eq!(init.list_services().len(), 3);

    assert!(init.start_all().is_ok());
    for (_, state) in init.list_services() {
        assert_eq!(state, ServiceState::Active);
    }
    assert_eq!(
        init.get_service_status(&String::from("display")),
        Some(ServiceState::Active)
    );
    assert!(init.stop_service(&String::from("display")).is_ok());
    assert_eq!(
        init.get_service_status(&String::from("display")),
        Some(ServiceState::Inactive)
    );
    assert_eq!(
        init.start_service(&String::from("missing")),
        Err(InitError::ServiceNotFound)
    );
    // re-registering a name replaces the service rather than duplicating
    init.register_service(config("audio")).unwrap();
    assert_eq!(init.list_services().len(), 3);
}

#[test]
fn android_runtime_lifecycle() {
    let mut rt = AndroidRuntime::new(AndroidConfig::default());
    assert_eq!(rt.get_status(), AndroidStatus::NotInitialized);
    assert_eq!(rt.resume(), Err(AndroidError::NotSuspended));
    rt.init().unwrap();
    assert_eq!(rt.get_status(), AndroidStatus::Running);
    assert_eq!(rt.init(), Err(AndroidError::AlreadyInitialized));
    let package = rt.install_app("/tmp/app.apk").unwrap();
    assert_eq!(rt.get_apps().len(), 1);
    assert!(rt.launch_app(&package).is_ok());
    rt.suspend().unwrap();
    assert_eq!(rt.suspend(), Err(AndroidError::NotRunning));
    rt.resume().unwrap();
    rt.stop().unwrap();
    assert_eq!(rt.get_status(), AndroidStatus::Stopped);
}

#[test]
fn power_states_and_thermal_policy() {
    let mut pm = PowerManager::new();
    assert!(pm.is_initialized());
    assert_eq!(pm.get_power_state(), PowerState::Interactive);
    pm.set_power_state(PowerState::Active);
    assert_eq!(pm.get_power_state(), PowerState::Active);
    pm.set_power_state(PowerState::Sleep);
    assert_eq!(pm.get_power_state(), PowerState::Sleep);
    assert_eq!(pm.get_battery_level(), 100);
    assert_eq!(pm.get_battery_status(), BatteryStatus::Discharging);
    assert_eq!(pm.get_cpu_temperature(), 45);
    // at 45 degrees no throttling happens
    pm.set_power_state(PowerState::Active);
    pm.thermal_check();
    assert_eq!(pm.get_power_state(), PowerState::Active);
}

#[test]
fn memory_ranges_and_capabilities() {
    let range = AddressRange::new(0x1000, 0x2000);
    assert!(range.contains(0x1000));
    assert!(range.contains(0x2FFF));
    assert!(!range.contains(0x3000));
    assert_eq!(range.size(), 0x2000);

    let mut mm = MemoryManager::new(8 << 30, 7 << 30);
    assert!(mm.is_initialized());
    let stats = mm.get_stats();
    assert_eq!(stats.total, 8 << 30);
    assert_eq!(stats.free, 7 << 30);
    assert_eq!(stats.used, 1 << 30);

    let parent = mm.create_capability(AddressRange::new(0x1000, 0x2000), Permissions::read_write(), None);
    let child = mm.create_capability(
        AddressRange::new(0x1800, 0x800),
        Permissions::read_only(),
        Some(&parent),
    );
    assert_eq!(child.range().start, 0x1800);
    assert_eq!(child.range().end, 0x2000);
    assert!(child.permissions().read);
    assert!(!child.permissions().write);
}

#[test]
fn security_monitor_counts_and_records() {
    let mut monitor = SecurityMonitor::new(SecurityPolicy::default());
    monitor.log_event(SecurityEvent::CapabilityViolation);
    monitor.log_event(SecurityEvent::MemoryViolation);
    assert_eq!(monitor.get_event_count(), 2);

    let silent_policy = SecurityPolicy { audit_all: false, ..SecurityPolicy::default() };
    let mut silent = SecurityMonitor::new(silent_policy);
    silent.log_event(SecurityEvent::SyscallViolation);
    assert_eq!(silent.get_event_count(), 0);

    assert_eq!(create_sandbox(SandboxConfig::default()), Ok(1));
}

#[test]
fn scheduler_picks_by_priority() {
    let mut sched = Scheduler::new();
    let low = sched.create_process(Priority::normal());
    let high = sched.create_process(Priority::realtime());
    let stats = sched.get_stats();
    assert_eq!(stats.total_processes, 2);
    assert_eq!(stats.running_processes, 0);
    // the realtime process (lower level) runs first
    assert_eq!(sched.schedule(), Some(high));
    assert_eq!(sched.schedule(), Some(low));
    assert_eq!(sched.schedule(), None);
}

#[test]
fn round_robin_scheduler_spawns_and_switches() {
    let mut sched = RoundRobinScheduler::new();
    let a = sched.spawn(0x1000, 4096, TaskPriority::normal());
    let b = sched.spawn(0x2000, 4096, TaskPriority::normal());
    assert_ne!(a.as_usize(), b.as_usize());
    sched.schedule();
    sched.yield_now();
    sched.block();
    sched.unblock(a);
    sched.schedule();
}

#[test]
fn process_context_records_entry_and_stack() {
    let ctx = Context::new_process(0x4000, 8192);
    assert_eq!(ctx.ra, 0x4000);
    assert_eq!(ctx.sp, 8192);
    assert!(ctx.s.iter().all(|&r| r == 0));
    let zero = Context::new();
    assert_eq!(zero.ra, 0);
}

#[test]
fn syscall_dispatch() {
    assert_eq!(handle_syscall(Syscall::Exit, 0, 0, 0, 0, 0), 0);
    assert_eq!(handle_syscall(Syscall::TimeGet, 0, 0, 0, 0, 0), 0);
    assert_eq!(handle_syscall(Syscall::MemAlloc, 4096, 0, 0, 0, 0), 0);
}

#[test]
fn trap_causes_decode() {
    assert_eq!(decode_cause(true, 7), TrapCause::TimerInterrupt);
    assert_eq!(decode_cause(true, 11), TrapCause::ExternalInterrupt);
    assert_eq!(decode_cause(false, 8), TrapCause::UserEcall);
    assert_eq!(decode_cause(false, 2), TrapCause::IllegalInstruction);
    assert_eq!(decode_cause(false, 99), TrapCause::Unknown);
}

#[test]
fn uart_translates_line_endings() {
    let mut uart = Uart::new(0x1000_0000);
    uart.put_str("ok\n");
    uart.put_byte(b'!');
    let sent = uart.drain_tx();
    assert_eq!(sent, b"ok\r\n!".to_vec());
    assert!(uart.drain_tx().is_empty());
}

#[test]
fn storage_driver_checks_ranges_and_rights() {
    let (mut reg, root) = registry_with_root();
    let cap = reg
        .create_capability(
            CapabilityType::Device,
            ResourceId::Device { device_id: 1 },
            PermissionSet::read_write(),
            Some(&root),
        )
        .unwrap();
    let mut drive = UfsDriver::new(UfsVersion::V3_1);
    assert_eq!(drive.get_capacity(), 0);
    drive.configure().unwrap();
    assert_eq!(drive.get_capacity(), 256 << 30);
    assert_eq!(drive.get_block_size(), 4096);

    let mut buf = vec![0u8; 8192];
    assert_eq!(drive.read_blocks(&mut reg, 0, 2, &mut buf, &cap), Ok(8192));
    assert_eq!(drive.write_blocks(&mut reg, 10, 1, &buf[..4096], &cap), Ok(4096));
    assert!(drive.flush(&mut reg, &cap).is_ok());
    // a range past the end of the device is refused
    let blocks = drive.get_capacity() / drive.get_block_size() as u64;
    assert_eq!(
        drive.read_blocks(&mut reg, blocks, 1, &mut buf, &cap),
        Err(DriverError::InvalidArgument)
    );

    let read_only = reg
        .create_capability(
            CapabilityType::Device,
            ResourceId::Device { device_id: 1 },
            PermissionSet::read_only(),
            Some(&root),
        )
        .unwrap();
    assert_eq!(
        drive.write_blocks(&mut reg, 0, 1, &buf[..4096], &read_only),
        Err(DriverError::PermissionDenied)
    );
}

#[test]
fn wifi_driver_association() {
    let mut wifi = WiFiDriver::new(NetworkType::WiFi6E);
    wifi.configure().unwrap();
    assert!(wifi.scan().unwrap().is_empty());
    wifi.connect(b"homenet", b"SECRET-REDACTED").unwrap();
    wifi.disconnect().unwrap();
    assert!(wifi.receive_packet().unwrap().is_none());
}

#[test]
fn display_driver_layers() {
    let mode = Resolution { width: 2400, height: 1080 };
    let mut dsi = MipiDsiDriver::new(mode, 120);
    dsi.configure().unwrap();
    let layer = dsi.create_layer(mode, PanelFormat::RGBA8888, 0).unwrap();
    assert_eq!(layer, 0);
    assert!(dsi.update_layer(layer).is_ok());
    assert_eq!(dsi.update_layer(5), Err(DriverError::InvalidArgument));
    assert!(dsi.wait_vsync().is_ok());
}

#[test]
fn device_registry_add_and_remove() {
    let (mut reg, root) = registry_with_root();
    let cap = reg
        .create_capability(
            CapabilityType::Device,
            ResourceId::Device { device_id: 7 },
            PermissionSet::read_write(),
            Some(&root),
        )
        .unwrap();
    let mut devices = DeviceManager::new();
    assert!(devices.is_initialized());
    devices
        .register_device(Device {
            id: 7,
            device_type: DeviceType::Storage,
            name: String::from("ufs0"),
            driver: String::from("ufs"),
            capability: cap,
        })
        .unwrap();
    assert!(devices.unregister_device(7).is_ok());
    assert!(devices.unregister_device(7).is_ok());
}

#[test]
fn filesystem_operations_are_gated() {
    let (mut reg, root) = registry_with_root();
    let cap = reg
        .create_capability(
            CapabilityType::FileSystem,
            ResourceId::File { path: String::from("/data/log") },
            PermissionSet::full(),
            Some(&root),
        )
        .unwrap();
    let handle = fs::open("/data/log", &cap, &mut reg).unwrap();
    assert_eq!(handle.path, "/data/log");
    let mut buf = vec![0u8; 16];
    assert_eq!(fs::read(&handle, &mut buf, &mut reg), Ok(0));
    assert_eq!(fs::write(&handle, b"entry", &mut reg), Ok(5));
    assert!(fs::delete("/data/log", &cap, &mut reg).is_ok());
    assert!(fs::close(handle).is_ok());

    let no_delete = reg
        .create_capability(
            CapabilityType::FileSystem,
            ResourceId::File { path: String::from("/data/other") },
            PermissionSet::read_write(),
            Some(&root),
        )
        .unwrap();
    assert_eq!(
        fs::delete("/data/other", &no_delete, &mut reg),
        Err(FsError::PermissionDenied)
    );
}

#[test]
fn mount_table() {
    let flags = MountFlags { read_only: false, no_exec: false, no_dev: false };
    let mut table = MountTable::new();
    table.mount("/dev/ufs0p1", "/", FilesystemType::SurakshaFS, flags).unwrap();
    table.mount("/dev/ufs0p2", "/boot", FilesystemType::Fat32, flags).unwrap();
    table.unmount("/boot").unwrap();
    table.unmount("/missing").unwrap();
}

#[test]
fn crypto_containers_have_standard_sizes() {

    let (pk, sk) = ml_kem::keypair();
    let (ct, ss1) = ml_kem::encapsulate(&pk);
    let ss2 = ml_kem::decapsulate(&ct, &sk);
    assert_eq!(ss1.as_bytes().len(), 32);
    assert_eq!(ss2.as_bytes().len(), 32);

    let (dpk, dsk) = ml_dsa::keypair();
    let sig = ml_dsa::sign(b"message", &dsk);
    assert!(ml_dsa::verify(b"message", &sig, &dpk));

    let (spk, ssk) = slh_dsa::keypair();
    let ssig = slh_dsa::sign(b"boot", &ssk);
    assert!(slh_dsa::verify(b"boot", &ssig, &spk));

    let key = Key::generate();
    let nonce = Nonce::generate();
    let (ciphertext, tag) = encrypt(b"secret data", &key, &nonce, b"aad");
    assert_eq!(ciphertext, b"secret data".to_vec());
    let plain = decrypt(&ciphertext, &key, &nonce, b"aad", &tag).unwrap();
    assert_eq!(plain, b"secret data".to_vec());

    assert_eq!(shake256(b"input", 64).len(), 64);
    assert_eq!(shake256_256(b"input").as_bytes().len(), 32);
}

#[test]
fn encrypted_files_round_trip() {
    let key = derive_file_key("/data/notes", 42);
    let (ciphertext, nonce, tag) = encrypt_file(b"private notes", &key);
    assert_eq!(tag.len(), 16);
    let plain = decrypt_file(&ciphertext, &nonce, &tag, &key).unwrap();
    assert_eq!(plain, b"private notes".to_vec());
}

#[test]
fn ai_model_tables() {
    let mut model = AiModel::new(ModelType::LLaMA3_2_3B, Quantization::INT4);
    assert_eq!(model.get_model_size(), 1_500_000_000);
    assert_eq!(model.get_inference_speed(), 80);
    model.load().unwrap();
    let fp32 = AiModel::new(ModelType::LLaMA3_2_3B, Quantization::FP32);
    assert_eq!(fp32.get_model_size(), 12_000_000_000);
    assert_eq!(fp32.get_inference_speed(), 10);
    let other = AiModel::new(ModelType::Gemma2B, Quantization::FP16);
    assert_eq!(other.get_model_size(), 3_000_000_000);
}

#[test]
fn ui_renderer_walks_the_tree() {
    let leaf = UiElement {
        id: String::from("label"),
        element_type: ElementType::Text { content: String::from("hello") },
        position: (10, 10),
        size: (100, 20),
        visible: true,
        children: Vec::new(),
    };
    let hidden = UiElement {
        id: String::from("hidden"),
        element_type: ElementType::Button { label: String::from("no") },
        position: (0, 0),
        size: (10, 10),
        visible: false,
        children: Vec::new(),
    };
    let root = UiElement {
        id: String::from("root"),
        element_type: ElementType::Container,
        position: (0, 0),
        size: (2400, 1080),
        visible: true,
        children: vec![leaf, hidden],
    };
    let mut renderer = UiRenderer::new(0x8000_0000);
    assert!(renderer.render().is_ok());
    renderer.set_root(root);
    renderer.set_theme(UiTheme::default());
    assert!(renderer.render().is_ok());
    assert_eq!(UiColor::rgba(1, 2, 3, 4).a, 4);
}

#[test]
fn boot_info_bounds() {
    let info = BootInfo {
        memory_start: 0x8000_0000,
        memory_size: 0x800_0000,
        dtb_addr: 0x8200_0000,
        signature_verified: true,
        platform: Platform::QemuRiscV64,
    };
    assert_eq!(info.memory_end(), 0x8800_0000);
    assert_eq!(info.platform, Platform::QemuRiscV64);
}

#[test]
fn buddy_allocator_splits_blocks() {
    let mut alloc = BuddyAllocator::new();
    // nothing to hand out before a heap arrives
    assert_eq!(alloc.allocate(4096, 8), None);
    alloc.init(0x8000_0000, 4 << 20);
    // a page-sized request splits the 4 MB block down and returns its base
    let a = alloc.allocate(4096, 8).unwrap();
    assert_eq!(a, 0x8000_0000);
    // the split-off halves serve further requests at distinct addresses
    let b = alloc.allocate(4096, 8).unwrap();
    assert_ne!(a, b);
    // larger than the largest block: refused
    assert_eq!(alloc.allocate(8 << 20, 8), None);
    // alignment dominates size when larger
    let c = alloc.allocate(16, 8192).unwrap();
    assert_eq!(c % 4096, 0);
}
