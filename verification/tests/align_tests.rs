//! Page-alignment arithmetic of the two platform controllers.
use hooking::mem::linux::LinuxMemoryController;
use hooking::mem::windows::WindowsMemoryController;

#[test]
fn linux_allign_up_rounds_to_next_page() {
    let c = LinuxMemoryController::new();
    assert_eq!(c.allign_up(4096, 0), 0);
    assert_eq!(c.allign_up(4096, 1), 4096);
    assert_eq!(c.allign_up(4096, 4096), 4096);
    assert_eq!(c.allign_up(4096, 4097), 8192);
    assert_eq!(c.allign_up(16384, 5), 16384);
}

#[test]
fn linux_allign_down_rounds_to_page_start() {
    let c = LinuxMemoryController::new();
    assert_eq!(c.allign_down(4096, 0), 0);
    assert_eq!(c.allign_down(4096, 4095), 0);
    assert_eq!(c.allign_down(4096, 4096), 4096);
    assert_eq!(c.allign_down(4096, 0x12345), 0x12000);
}

#[test]
fn windows_allign_matches_linux() {
    let w = WindowsMemoryController::new();
    let l = LinuxMemoryController::new();
    for addr in [0usize, 1, 4095, 4096, 4097, 0xABCDE] {
        assert_eq!(w.allign_up(4096, addr), l.allign_up(4096, addr));
        assert_eq!(w.allign_down(4096, addr), l.allign_down(4096, addr));
    }
}

#[test]
fn allocation_size_defaults_to_one_page() {
    let c = LinuxMemoryController::new();
    assert_eq!(c.allocation_size_for(4096, None), 4096);
    assert_eq!(c.allocation_size_for(4096, Some(1)), 4096);
    assert_eq!(c.allocation_size_for(4096, Some(4097)), 8192);
    let w = WindowsMemoryController::new();
    assert_eq!(w.allocation_size_for(4096, Some(10000)), 12288);
}
