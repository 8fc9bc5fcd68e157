use unix_permissions_ext::raw_fn;

#[test]
fn renders_755() {
    assert_eq!(raw_fn::stringify(0o755), "rwxr-xr-x");
}

#[test]
fn renders_644() {
    assert_eq!(raw_fn::stringify(0o644), "rw-r--r--");
}

#[test]
fn renders_empty_mode() {
    assert_eq!(raw_fn::stringify(0o000), "---------");
}

#[test]
fn renders_777() {
    assert_eq!(raw_fn::stringify(0o777), "rwxrwxrwx");
}

#[test]
fn renders_set_uid_over_owner_exec() {
    assert_eq!(raw_fn::stringify(0o4755), "rwsr-xr-x");
}

#[test]
fn renders_set_gid_over_group_exec() {
    assert_eq!(raw_fn::stringify(0o2755), "rwxr-sr-x");
}

#[test]
fn renders_sticky_over_other_exec() {
    assert_eq!(raw_fn::stringify(0o1755), "rwxr-xr-t");
}

#[test]
fn renders_set_uid_without_owner_exec() {
    assert_eq!(raw_fn::stringify(0o4655), "rwSr-xr-x");
}

#[test]
fn renders_set_gid_without_group_exec() {
    assert_eq!(raw_fn::stringify(0o2745), "rwxr-Sr-x");
}

#[test]
fn renders_sticky_without_other_exec() {
    assert_eq!(raw_fn::stringify(0o1754), "rwxr-xr-T");
}

#[test]
fn renders_special_bits_alone() {
    assert_eq!(raw_fn::stringify(0o7000), "--S--S--T");
    assert_eq!(raw_fn::stringify(0o4000), "--S------");
    assert_eq!(raw_fn::stringify(0o2000), "-----S---");
    assert_eq!(raw_fn::stringify(0o1000), "--------T");
}

#[test]
fn renders_every_bit() {
    assert_eq!(raw_fn::stringify(0o7777), "rwsrwsrwt");
}

#[test]
fn renders_each_single_permission_bit() {
    assert_eq!(raw_fn::stringify(0o400), "r--------");
    assert_eq!(raw_fn::stringify(0o200), "-w-------");
    assert_eq!(raw_fn::stringify(0o100), "--x------");
    assert_eq!(raw_fn::stringify(0o040), "---r-----");
    assert_eq!(raw_fn::stringify(0o020), "----w----");
    assert_eq!(raw_fn::stringify(0o010), "-----x---");
    assert_eq!(raw_fn::stringify(0o004), "------r--");
    assert_eq!(raw_fn::stringify(0o002), "-------w-");
    assert_eq!(raw_fn::stringify(0o001), "--------x");
}

#[test]
fn special_bit_of_one_class_leaves_the_others() {
    assert_eq!(raw_fn::stringify(0o4111), "--s--x--x");
    assert_eq!(raw_fn::stringify(0o2111), "--x--s--x");
    assert_eq!(raw_fn::stringify(0o1111), "--x--x--t");
    assert_eq!(raw_fn::stringify(0o4011), "--S--x--x");
    assert_eq!(raw_fn::stringify(0o2101), "--x--S--x");
    assert_eq!(raw_fn::stringify(0o1110), "--x--x--T");
}

#[test]
fn rendering_has_nine_glyphs() {
    let mut mode: u32 = 0;
    while mode <= 0o7777 {
        let s = raw_fn::stringify(mode);
        assert_eq!(s.len(), 9);
        assert_eq!(s.chars().count(), 9);
        assert!(s.chars().all(|c| "rwxsStT-".contains(c)));
        mode += 1;
    }
}

#[test]
fn each_slot_keeps_to_its_alphabet() {
    let alphabets = ["r-", "w-", "sxS-", "r-", "w-", "sxS-", "r-", "w-", "txT-"];
    let mut mode: u32 = 0;
    while mode <= 0o7777 {
        let s = raw_fn::stringify(mode);
        for (c, alphabet) in s.chars().zip(alphabets) {
            assert!(alphabet.contains(c));
        }
        mode += 1;
    }
}

#[test]
fn rendering_is_repeatable() {
    let mut mode: u32 = 0;
    while mode <= 0o7777 {
        assert_eq!(raw_fn::stringify(mode), raw_fn::stringify(mode));
        mode += 1;
    }
}

#[test]
fn file_type_bits_leave_the_rendering() {
    assert_eq!(raw_fn::stringify(0o100755), "rwxr-xr-x");
    assert_eq!(raw_fn::stringify(0o040755), "rwxr-xr-x");
    assert_eq!(raw_fn::stringify(0o104655), "rwSr-xr-x");
    assert_eq!(raw_fn::stringify(0o041777), "rwxrwxrwt");
    assert_eq!(raw_fn::stringify(0o120000), "---------");
    assert_eq!(raw_fn::stringify(u32::MAX), "rwsrwsrwt");
    assert_eq!(raw_fn::stringify(!0o7777), "---------");
}

#[test]
fn rendering_reads_the_low_twelve_bits_only() {
    let mut mode: u32 = 0;
    while mode <= 0o7777 {
        let expected = raw_fn::stringify(mode);
        assert_eq!(raw_fn::stringify(mode | 0o100000), expected);
        assert_eq!(raw_fn::stringify(mode | 0xffff_f000), expected);
        mode += 1;
    }
}
