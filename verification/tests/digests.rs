use md5::util::{f, g, h, i, rotate_u32_left};
use md5::Context;

fn compute_string(bytes: &[u8]) -> String {
    let mut ctx = Context::new();
    ctx.read(bytes);
    let digest = ctx.finish();
    let mut s = String::new();
    for byte in digest.iter() {
        s.push_str(&format!("{:02x}", byte));
    }
    s
}

#[test]
fn empty() {
    assert_eq!(compute_string(b"").as_str(), "d41d8cd98f00b204e9800998ecf8427e");
}

#[test]
fn a() {
    assert_eq!(compute_string(b"a").as_str(), "0cc175b9c0f1b6a831c399e269772661");
}

#[test]
fn abc() {
    assert_eq!(compute_string(b"abc").as_str(), "900150983cd24fb0d6963f7d28e17f72");
}

#[test]
fn abcdefghijklmnopqrstuvwxyz() {
    assert_eq!(
        compute_string(b"abcdefghijklmnopqrstuvwxyz").as_str(),
        "c3fcd3d76192e4007dfb496cca67e13b"
    );
}

#[test]
fn foo() {
    assert_eq!(compute_string(b"foo").as_str(), "acbd18db4cc2f85cedef654fccc4a4d8");
}

#[test]
fn bar() {
    assert_eq!(compute_string(b"bar").as_str(), "37b51d194a7513e45b56f6524f2d51f2");
}

#[test]
fn baz() {
    assert_eq!(compute_string(b"baz").as_str(), "73feffa4b7f6bb68e44cf984c85f6e88");
}

#[test]
fn foobar() {
    assert_eq!(compute_string(b"foobar").as_str(), "3858f62230ac3c915f300c664312c63f");
}

#[test]
fn foobarbaz() {
    assert_eq!(compute_string(b"foobarbaz").as_str(), "6df23dc03f9b54cc38a0fc1483df6e21");
}

#[test]
fn quick_brown_fox() {
    assert_eq!(
        compute_string(b"The quick brown fox jumps over the lazy dog").as_str(),
        "9e107d9d372bb6826bd81d3542a419d6"
    );
}

#[test]
fn hello_world() {
    assert_eq!(compute_string(b"Hello, world").as_str(), "bc6e6f16b8a077ef5fbc8d59d0b931b9");
}

#[test]
fn deterministic() {
    let msg = b"determinism check";
    assert_eq!(compute_string(msg), compute_string(msg));
}

#[test]
fn chunked_one_byte_at_a_time() {
    let msg = b"The quick brown fox jumps over the lazy dog";
    let mut ctx = Context::new();
    for byte in msg.iter() {
        ctx.read(&[*byte]);
    }
    let digest = ctx.finish();
    let mut s = String::new();
    for byte in digest.iter() {
        s.push_str(&format!("{:02x}", byte));
    }
    assert_eq!(s, compute_string(msg));
}

#[test]
fn chunked_across_block_boundary() {
    // 100 bytes, split 63 + 1 + 36 so a chunk straddles the block boundary.
    let msg = [0x5au8; 100];
    let mut ctx = Context::new();
    ctx.read(&msg[..63]);
    ctx.read(&msg[63..64]);
    ctx.read(&msg[64..]);
    let digest = ctx.finish();
    let whole = {
        let mut c = Context::new();
        c.read(&msg);
        c.finish()
    };
    assert_eq!(digest, whole);
}

#[test]
fn concatenation_of_chunks() {
    let mut ctx = Context::new();
    ctx.read(b"foobar");
    ctx.read(b"baz");
    let digest = ctx.finish();
    let mut s = String::new();
    for byte in digest.iter() {
        s.push_str(&format!("{:02x}", byte));
    }
    assert_eq!(s, compute_string(b"foobarbaz"));
}

#[test]
fn empty_read_calls_change_nothing() {
    let mut ctx = Context::new();
    ctx.read(b"");
    ctx.read(b"abc");
    ctx.read(b"");
    let digest = ctx.finish();
    let mut s = String::new();
    for byte in digest.iter() {
        s.push_str(&format!("{:02x}", byte));
    }
    assert_eq!(s, "900150983cd24fb0d6963f7d28e17f72");
}

#[test]
fn len_55_padding_short_branch() {
    assert_eq!(compute_string(&[b'a'; 55]).as_str(), "ef1772b6dff9a122358552954ad0df65");
}

#[test]
fn len_56_padding_long_branch() {
    assert_eq!(compute_string(&[b'a'; 56]).as_str(), "3b0c8ac703f828b04c6c197006d17218");
}

#[test]
fn len_57_padding_long_branch() {
    assert_eq!(compute_string(&[b'a'; 57]).as_str(), "652b906d60af96844ebd21b674f35e93");
}

#[test]
fn len_63_just_under_block() {
    assert_eq!(compute_string(&[b'a'; 63]).as_str(), "b06521f39153d618550606be297466d5");
}

#[test]
fn len_64_exact_block() {
    assert_eq!(compute_string(&[b'a'; 64]).as_str(), "014842d480b571495a4a0363793f7367");
}

#[test]
fn len_65_just_over_block() {
    assert_eq!(compute_string(&[b'a'; 65]).as_str(), "c743a45e0d2e6a95cb859adae0248435");
}

#[test]
fn rotate_left_moves_bits() {
    assert_eq!(rotate_u32_left(1, 1), 2);
    assert_eq!(rotate_u32_left(0x8000_0000, 1), 1);
    assert_eq!(rotate_u32_left(0x0123_4567, 16), 0x4567_0123);
}

#[test]
fn round_functions_select_and_mix() {
    assert_eq!(f(0xffff_ffff, 0x1234_5678, 0x9abc_def0), 0x1234_5678);
    assert_eq!(f(0, 0x1234_5678, 0x9abc_def0), 0x9abc_def0);
    assert_eq!(g(0x1234_5678, 0x9abc_def0, 0xffff_ffff), 0x1234_5678);
    assert_eq!(g(0x1234_5678, 0x9abc_def0, 0), 0x9abc_def0);
    assert_eq!(h(0xff00_ff00, 0x00ff_00ff, 0), 0xffff_ffff);
    assert_eq!(i(0, 0xffff_ffff, 0xffff_ffff), 0xffff_ffff);
}
