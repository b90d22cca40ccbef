//! Network diagnostics for gaming: the ROM type, the bullet-registration and
//! jitter ratings and their scores, and the passive network state. Reading
//! the reports and system values is the caller's part.
use vstd::prelude::*;
use crate::text::{chars_of, has_infix, has_prefix, starts_with_chars};

verus! {

#[derive(Debug, Clone, Copy, PartialEq, Eq, Structural)]
pub enum RomType {
    HyperOS,
    Aosp,
}

/// `c` in lower case when it is an ASCII capital.
pub open spec fn ascii_lower_char(c: char) -> char {
    if 'A' <= c && c <= 'Z' {
        ((c as u32) + 32) as char
    } else {
        c
    }
}

pub open spec fn ascii_lower(s: Seq<char>) -> Seq<char> {
    s.map_values(|c: char| ascii_lower_char(c))
}

/// The ROM from its properties: a Xiaomi, POCO or Redmi brand with a HyperOS
/// or MIUI version is HyperOS; anything else is AOSP.
pub open spec fn rom_spec(brand: Seq<char>, os_ver: Seq<char>, miui_ver: Seq<char>) -> RomType {
    let b = ascii_lower(brand);
    if (has_infix(b, "xiaomi"@) || has_infix(b, "poco"@) || has_infix(b, "redmi"@)) && (os_ver.len()
        > 0 || miui_ver.len() > 0) {
        RomType::HyperOS
    } else {
        RomType::Aosp
    }
}

pub fn ascii_lower_exec(s: &Vec<char>) -> (r: Vec<char>)
    ensures
        r@ == ascii_lower(s@),
{
    let mut out: Vec<char> = Vec::new();
    let mut i: usize = 0;
    while i < s.len()
        invariant
            0 <= i <= s.len(),
            out@ == ascii_lower(s@.take(i as int)),
        decreases s.len() - i,
    {
        let c = s[i];
        let l = if 'A' <= c && c <= 'Z' {
            ((c as u8) + 32) as char
        } else {
            c
        };
        out.push(l);
        assert(ascii_lower(s@.take(i + 1)) =~= ascii_lower(s@.take(i as int)).push(
            ascii_lower_char(c),
        ));
        i = i + 1;
    }
    assert(s@.take(s.len() as int) =~= s@);
    out
}

impl RomType {
    /// The ROM from the values of `ro.product.brand`,
    /// `ro.mi.os.version.incremental` and `ro.miui.ui.version.name`, each
    /// trimmed.
    pub fn detect(brand: &str, os_ver: &str, miui_ver: &str) -> (r: RomType)
        ensures
            r == rom_spec(brand@, os_ver@, miui_ver@),
    {
        let b = ascii_lower_exec(&chars_of(brand));
        let x = chars_of("xiaomi");
        let p = chars_of("poco");
        let rd = chars_of("redmi");
        let branded = crate::text::contains_chars(&b, &x) || crate::text::contains_chars(&b, &p)
            || crate::text::contains_chars(&b, &rd);
        let o = chars_of(os_ver);
        let m = chars_of(miui_ver);
        if branded && (o.len() > 0 || m.len() > 0) {
            RomType::HyperOS
        } else {
            RomType::Aosp
        }
    }
}

/// Quality rating for bullet registration.
#[derive(Debug, Clone, Copy, PartialEq, Eq, Structural)]
pub enum BulletRegQuality {
    Excellent,
    Good,
    Fair,
    Poor,
    Bad,
    Unknown,
}

pub open spec fn bullet_score(q: BulletRegQuality) -> u32 {
    match q {
        BulletRegQuality::Excellent => 100,
        BulletRegQuality::Good => 80,
        BulletRegQuality::Fair => 60,
        BulletRegQuality::Poor => 40,
        BulletRegQuality::Bad => 20,
        BulletRegQuality::Unknown => 50,
    }
}

impl BulletRegQuality {
    /// The rating's score out of 100.
    pub fn score(&self) -> (r: u32)
        ensures
            r == bullet_score(*self),
    {
        match self {
            BulletRegQuality::Excellent => 100,
            BulletRegQuality::Good => 80,
            BulletRegQuality::Fair => 60,
            BulletRegQuality::Poor => 40,
            BulletRegQuality::Bad => 20,
            BulletRegQuality::Unknown => 50,
        }
    }
}

/// A better rating never scores lower: the scores fall from `Excellent` to
/// `Bad`, with `Unknown` in the middle.
pub proof fn law_bullet_scores_ordered()
    ensures
        bullet_score(BulletRegQuality::Excellent) > bullet_score(BulletRegQuality::Good),
        bullet_score(BulletRegQuality::Good) > bullet_score(BulletRegQuality::Fair),
        bullet_score(BulletRegQuality::Fair) > bullet_score(BulletRegQuality::Unknown),
        bullet_score(BulletRegQuality::Unknown) > bullet_score(BulletRegQuality::Poor),
        bullet_score(BulletRegQuality::Poor) > bullet_score(BulletRegQuality::Bad),
{
}

/// Jitter quality tier.
#[derive(Debug, Clone, Copy, PartialEq, Eq, Structural)]
pub enum JitterTier {
    SPlus,
    S,
    A,
    B,
    C,
    D,
}

pub open spec fn jitter_tier_spec(j: i64) -> JitterTier {
    if j <= 3 {
        JitterTier::SPlus
    } else if j <= 5 {
        JitterTier::S
    } else if j <= 8 {
        JitterTier::A
    } else if j <= 12 {
        JitterTier::B
    } else if j <= 20 {
        JitterTier::C
    } else {
        JitterTier::D
    }
}

impl JitterTier {
    /// The tier for a jitter in whole milliseconds (the measured jitter
    /// truncated towards zero).
    pub fn from_whole_ms(j: i64) -> (r: JitterTier)
        ensures
            r == jitter_tier_spec(j),
    {
        if j <= 3 {
            JitterTier::SPlus
        } else if j <= 5 {
            JitterTier::S
        } else if j <= 8 {
            JitterTier::A
        } else if j <= 12 {
            JitterTier::B
        } else if j <= 20 {
            JitterTier::C
        } else {
            JitterTier::D
        }
    }
}

/// Passive network state read from the system.
#[derive(Debug, Clone)]
pub struct PassiveNetworkState {
    pub interface: String,
    pub network_type: String,
    pub wifi_power_save: Option<String>,
    pub wifi_rssi: Option<String>,
    pub wifi_freq: Option<String>,
    pub tcp_rmem: Option<String>,
    pub tcp_wmem: Option<String>,
    pub udp_mem: Option<String>,
    pub rmem_max: Option<u64>,
    pub wmem_max: Option<u64>,
    pub busy_poll: Option<u64>,
    pub netdev_backlog: Option<u64>,
    pub fastopen: Option<String>,
    pub tcp_keepalive: Option<u32>,
    pub tx_queue_len: Option<u64>,
}

/// The kind of network behind an interface name: `wlan…` is WiFi, `rmnet…`
/// and `ccmni…` are mobile, anything else other.
pub open spec fn network_type_spec(iface: Seq<char>) -> Seq<char> {
    if has_prefix(iface, "wlan"@) {
        "wifi"@
    } else if has_prefix(iface, "rmnet"@) || has_prefix(iface, "ccmni"@) {
        "mobile"@
    } else {
        "other"@
    }
}

pub fn network_type_for(iface: &str) -> (r: &'static str)
    ensures
        r@ == network_type_spec(iface@),
{
    let n = chars_of(iface);
    if starts_with_chars(&n, &chars_of("wlan")) {
        "wifi"
    } else if starts_with_chars(&n, &chars_of("rmnet")) || starts_with_chars(&n, &chars_of("ccmni")) {
        "mobile"
    } else {
        "other"
    }
}

} // verus!
