use vstd::prelude::*;

verus! {

/// `VK_MAKE_API_VERSION`: packs a variant, major, minor and patch number.
pub open spec fn spec_make_api_version(variant: u32, major: u32, minor: u32, patch: u32) -> u32 {
    (variant << 29u32) | (major << 22u32) | (minor << 12u32) | patch
}

/// `VK_API_VERSION_MAJOR`: bits 22 to 28 of a packed version.
pub open spec fn spec_api_version_major(version: u32) -> u32 {
    (version >> 22u32) & 0x7fu32
}

/// `VK_API_VERSION_MINOR`: bits 12 to 21 of a packed version.
pub open spec fn spec_api_version_minor(version: u32) -> u32 {
    (version >> 12u32) & 0x3ffu32
}

/// `VK_API_VERSION_PATCH`: bits 0 to 11 of a packed version.
pub open spec fn spec_api_version_patch(version: u32) -> u32 {
    version & 0xfffu32
}

/// Calls `ash::vk::make_api_version`, whose body is
/// `(variant << 29) | (major << 22) | (minor << 12) | patch` on `u32`.
#[verifier::external_body]
fn make_api_version(variant: u32, major: u32, minor: u32, patch: u32) -> (r: u32)
    ensures
        r == spec_make_api_version(variant, major, minor, patch),
{
    ash::vk::make_api_version(variant, major, minor, patch)
}

/// Calls `ash::vk::api_version_major`, whose body is `(version >> 22) & 0x7f`.
#[verifier::external_body]
fn api_version_major(version: u32) -> (r: u32)
    ensures
        r == spec_api_version_major(version),
{
    ash::vk::api_version_major(version)
}

/// Calls `ash::vk::api_version_minor`, whose body is `(version >> 12) & 0x3ff`.
#[verifier::external_body]
fn api_version_minor(version: u32) -> (r: u32)
    ensures
        r == spec_api_version_minor(version),
{
    ash::vk::api_version_minor(version)
}

/// Calls `ash::vk::api_version_patch`, whose body is `version & 0xfff`.
#[verifier::external_body]
fn api_version_patch(version: u32) -> (r: u32)
    ensures
        r == spec_api_version_patch(version),
{
    ash::vk::api_version_patch(version)
}

/// The Vulkan API version the engine targets: 1.3.0.
pub fn target_api_version() -> (r: u32)
    ensures
        r == spec_make_api_version(0, 1, 3, 0),
        r == 4206592,
{
    let r = make_api_version(0, 1, 3, 0);
    assert(spec_make_api_version(0, 1, 3, 0) == 4206592u32) by (bit_vector);
    r
}

/// Vulkan 1.0.0, assumed when the loader cannot report its version.
pub fn api_version_1_0() -> (r: u32)
    ensures
        r == spec_make_api_version(0, 1, 0, 0),
        r == 4194304,
{
    let r = make_api_version(0, 1, 0, 0);
    assert(spec_make_api_version(0, 1, 0, 0) == 4194304u32) by (bit_vector);
    r
}

/// The version the engine reports for the application and for itself: 0.1.0.
pub fn engine_version() -> (r: u32)
    ensures
        r == spec_make_api_version(0, 0, 1, 0),
        r == 4096,
{
    let r = make_api_version(0, 0, 1, 0);
    assert(spec_make_api_version(0, 0, 1, 0) == 4096u32) by (bit_vector);
    r
}

/// The character of a decimal digit.
pub open spec fn digit_char(d: nat) -> char {
    if d == 0 { '0' }
    else if d == 1 { '1' }
    else if d == 2 { '2' }
    else if d == 3 { '3' }
    else if d == 4 { '4' }
    else if d == 5 { '5' }
    else if d == 6 { '6' }
    else if d == 7 { '7' }
    else if d == 8 { '8' }
    else { '9' }
}

/// The decimal notation of a natural number, without leading zeros.
pub open spec fn decimal(n: nat) -> Seq<char>
    decreases n,
{
    if n < 10 {
        seq![digit_char(n)]
    } else {
        decimal(n / 10).push(digit_char(n % 10))
    }
}

/// The number a string of decimal digits stands for.
pub open spec fn digits_value(s: Seq<char>) -> int
    decreases s.len(),
{
    if s.len() == 0 {
        0
    } else {
        10 * digits_value(s.drop_last()) + (s.last() as int - 48)
    }
}

proof fn lemma_digit_char(d: nat)
    requires
        d < 10,
    ensures
        digit_char(d) as int == 48 + d,
{
}

/// The decimal notation of `n` is made of the characters `0` to `9` (codes
/// 48 to 57), has no leading zero, and reads back as `n`.
pub proof fn law_decimal_reads_back(n: nat)
    ensures
        decimal(n).len() >= 1,
        forall|i: int| 0 <= i < decimal(n).len() ==> 48 <= #[trigger] decimal(n)[i] as int <= 57,
        n > 0 ==> decimal(n)[0] as int != 48,
        digits_value(decimal(n)) == n,
    decreases n,
{
    if n < 10 {
        lemma_digit_char(n);
        assert(decimal(n) =~= seq![digit_char(n)]);
        assert(decimal(n).drop_last() =~= Seq::<char>::empty());
        assert(digits_value(Seq::<char>::empty()) == 0);
        assert(digits_value(decimal(n)) == 10 * digits_value(decimal(n).drop_last()) + (decimal(n).last() as int - 48));
    } else {
        let q = n / 10;
        let d = n % 10;
        law_decimal_reads_back(q);
        lemma_digit_char(d);
        let s = decimal(n);
        assert(s == decimal(q).push(digit_char(d)));
        assert(s.drop_last() =~= decimal(q));
        assert forall|i: int| 0 <= i < s.len() implies 48 <= #[trigger] s[i] as int <= 57 by {
            if i < decimal(q).len() {
                assert(s[i] == decimal(q)[i]);
            }
        }
        assert(s[0] == decimal(q)[0]);
        assert(digits_value(s) == 10 * digits_value(s.drop_last()) + (s.last() as int - 48));
        assert(n == 10 * q + d);
    }
}

fn digit_str(d: u64) -> (r: &'static str)
    requires
        d < 10,
    ensures
        r@ == seq![digit_char(d as nat)],
{
    proof {
        reveal_strlit("0");
        reveal_strlit("1");
        reveal_strlit("2");
        reveal_strlit("3");
        reveal_strlit("4");
        reveal_strlit("5");
        reveal_strlit("6");
        reveal_strlit("7");
        reveal_strlit("8");
        reveal_strlit("9");
    }
    if d == 0 { "0" }
    else if d == 1 { "1" }
    else if d == 2 { "2" }
    else if d == 3 { "3" }
    else if d == 4 { "4" }
    else if d == 5 { "5" }
    else if d == 6 { "6" }
    else if d == 7 { "7" }
    else if d == 8 { "8" }
    else { "9" }
}

/// Appends the decimal notation of `n` to `s`.
pub fn append_decimal(s: &mut String, n: u64)
    ensures
        final(s)@ == old(s)@ + decimal(n as nat),
    decreases n,
{
    if n >= 10 {
        append_decimal(s, n / 10);
    }
    s.append(digit_str(n % 10));
    proof {
        assert(old(s)@ + decimal(n as nat) =~= old(s)@ + (if n >= 10 { decimal((n / 10) as nat) } else { Seq::empty() }) + seq![digit_char((n % 10) as nat)]);
    }
}

/// The decimal notation of `n` as a new string.
pub fn decimal_string(n: u64) -> (r: String)
    ensures
        r@ == decimal(n as nat),
{
    let mut s = String::new();
    append_decimal(&mut s, n);
    assert(s@ =~= decimal(n as nat));
    s
}

/// `major.minor.patch` of a packed Vulkan version, each in decimal.
pub open spec fn version_text(version: u32) -> Seq<char> {
    decimal(spec_api_version_major(version) as nat) + seq!['.']
        + decimal(spec_api_version_minor(version) as nat) + seq!['.']
        + decimal(spec_api_version_patch(version) as nat)
}

/// Renders a packed Vulkan version as `major.minor.patch`.
pub fn format_api_version(version: u32) -> (r: String)
    ensures
        r@ == version_text(version),
{
    proof {
        reveal_strlit(".");
    }
    let mut s = String::new();
    append_decimal(&mut s, api_version_major(version) as u64);
    s.append(".");
    append_decimal(&mut s, api_version_minor(version) as u64);
    s.append(".");
    append_decimal(&mut s, api_version_patch(version) as u64);
    assert(s@ =~= version_text(version));
    s
}

/// A version packed from a major number below 128, a minor number below
/// 1024 and a patch number below 4096 unpacks to the same numbers, so it
/// is printed as `major.minor.patch`.
pub proof fn law_version_round_trip(major: u32, minor: u32, patch: u32)
    requires
        major < 128,
        minor < 1024,
        patch < 4096,
    ensures
        spec_api_version_major(spec_make_api_version(0, major, minor, patch)) == major,
        spec_api_version_minor(spec_make_api_version(0, major, minor, patch)) == minor,
        spec_api_version_patch(spec_make_api_version(0, major, minor, patch)) == patch,
        version_text(spec_make_api_version(0, major, minor, patch)) == decimal(major as nat) + seq!['.']
            + decimal(minor as nat) + seq!['.'] + decimal(patch as nat),
{
    assert(((((0u32 << 29u32) | (major << 22u32) | (minor << 12u32) | patch) >> 22u32) & 0x7fu32) == major)
        by (bit_vector)
        requires
            major < 128,
            minor < 1024,
            patch < 4096,
    ;
    assert(((((0u32 << 29u32) | (major << 22u32) | (minor << 12u32) | patch) >> 12u32) & 0x3ffu32) == minor)
        by (bit_vector)
        requires
            major < 128,
            minor < 1024,
            patch < 4096,
    ;
    assert((((0u32 << 29u32) | (major << 22u32) | (minor << 12u32) | patch) & 0xfffu32) == patch)
        by (bit_vector)
        requires
            major < 128,
            minor < 1024,
            patch < 4096,
    ;
}

} // verus!
