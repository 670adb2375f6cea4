use cosmic_kernel::interrupts::{pic_eoi_ports, pic_init_sequence, InterruptIndex};
use cosmic_kernel::memory::{heap_region, HeapError, MemRegion};
use cosmic_kernel::vfs::node::{FsNode, NodeKind};
use cosmic_kernel::vfs::{init, with_root, with_root_mut, Vfs};

const MIB: u64 = 1024 * 1024;

#[test]
fn heap_goes_in_first_large_usable_region() {
    let map = [
        MemRegion { base: 0x1000, length: 64 * MIB, usable: false },
        MemRegion { base: 0x2000, length: 4 * MIB, usable: true },
        MemRegion { base: 0x10_0000, length: 8 * MIB, usable: true },
        MemRegion { base: 0x90_0000, length: 128 * MIB, usable: true },
    ];
    assert_eq!(heap_region(&map, 0xFFFF_8000_0000_0000), Ok((0xFFFF_8000_0010_0000, 8 * MIB)));
}

#[test]
fn heap_is_capped_at_32_mib() {
    let map = [MemRegion { base: 0x4000_0000, length: 100 * MIB, usable: true }];
    assert_eq!(heap_region(&map, 0), Ok((0x4000_0000, 32 * MIB)));
}

#[test]
fn no_heap_without_a_large_region() {
    let map = [MemRegion { base: 0, length: 8 * MIB - 1, usable: true }];
    assert_eq!(heap_region(&map, 0), Err(HeapError::NoRegion));
    assert_eq!(heap_region(&[], 0), Err(HeapError::NoRegion));
}

#[test]
fn heap_start_beyond_the_address_space_is_refused() {
    let map = [
        MemRegion { base: 0x1000, length: MIB, usable: true },
        MemRegion { base: 0x10_0000, length: 16 * MIB, usable: true },
        MemRegion { base: 0, length: 64 * MIB, usable: true },
    ];
    assert_eq!(heap_region(&map, u64::MAX - 0x1000), Err(HeapError::AddressOverflow));
    assert_eq!(heap_region(&map, u64::MAX - 0x10_0000), Ok((u64::MAX, 16 * MIB)));
}

#[test]
fn interrupt_vectors() {
    assert_eq!(InterruptIndex::Timer.as_u8(), 32);
    assert_eq!(InterruptIndex::Keyboard.as_u8(), 33);
    assert_eq!(InterruptIndex::Keyboard.as_usize(), 33);
}

#[test]
fn pic_sequences() {
    let s = pic_init_sequence();
    assert_eq!(s.len(), 10);
    assert_eq!(s[0], (0x20, 0x11, true));
    assert_eq!(s[2], (0x21, 32, true));
    assert_eq!(s[3], (0xA1, 40, true));
    assert_eq!(s[8], (0x21, 0xFD, false));
    assert_eq!(s[9], (0xA1, 0xFF, false));
    assert_eq!(pic_eoi_ports(1), (None, 0x20));
    assert_eq!(pic_eoi_ports(12), (Some(0xA0), 0x20));
}

#[test]
fn vfs_initial_tree() {
    let mut vfs = Vfs::new();
    init(&mut vfs);
    let names = with_root(&vfs, |root| {
        root.children.iter().map(|c| c.name.clone()).collect::<Vec<String>>()
    });
    assert_eq!(names, vec!["Desktop", "Download", "Documenti", "Immagini", "Cestino", "Sistema"]);
    with_root(&vfs, |root| {
        assert!(root.is_dir());
        assert_eq!(root.size(), 6);
        let desk = root.child("Desktop").unwrap();
        let welcome = desk.child("Benvenuto.costxt").unwrap();
        assert!(welcome.is_file());
        assert_eq!(welcome.data, b"Benvenuto in CosmicOS!\nPrestazioni spaziali.".to_vec());
        assert_eq!(welcome.extension(), Some("costxt"));
        let sys = root.child("Sistema").unwrap();
        assert_eq!(sys.child("config.coscfg").unwrap().data, b"theme=light\nlocale=it".to_vec());
        assert!(root.child("Nowhere").is_none());
    });
}

#[test]
fn vfs_write_and_append() {
    let mut vfs = Vfs::new();
    init(&mut vfs);
    with_root_mut(&mut vfs, |root| {
        let sys = root.child_mut("Sistema").unwrap();
        let log = sys.child_mut("boot.coslog").unwrap();
        log.write(b"ok");
        log.append(b"!!");
        assert_eq!(log.data, b"ok!!".to_vec());
        assert_eq!(log.size(), 4);
    });
    let data = with_root(&vfs, |root| root.child("Sistema").unwrap().child("boot.coslog").unwrap().data.clone());
    assert_eq!(data, b"ok!!".to_vec());
}

#[test]
fn files_have_no_children_and_dirs_no_data() {
    let mut f = FsNode::file("a.costxt", b"xy");
    f.add_child(FsNode::dir("sub"));
    assert_eq!(f.children.len(), 0);
    let mut d = FsNode::dir("d");
    d.write(b"data");
    d.append(b"more");
    assert!(d.data.is_empty());
    d.add_child(FsNode::dir("sub"));
    assert_eq!(d.size(), 1);
    assert_eq!(d.kind, NodeKind::Directory);
}

#[test]
fn extension_is_after_the_last_dot() {
    assert_eq!(FsNode::dir("archive.tar.cospkg").extension(), Some("cospkg"));
    assert_eq!(FsNode::dir("noext").extension(), None);
    assert_eq!(FsNode::dir("trailing.").extension(), Some(""));
    assert_eq!(FsNode::dir(".hidden").extension(), Some("hidden"));
}

#[test]
fn child_finds_the_first_match() {
    let mut d = FsNode::dir("d");
    d.add_child(FsNode::file("x", b"1"));
    d.add_child(FsNode::file("x", b"2"));
    assert_eq!(d.child("x").unwrap().data, b"1".to_vec());
}
