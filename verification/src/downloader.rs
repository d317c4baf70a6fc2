// Download progress records and human-readable byte counts.

use vstd::prelude::*;
use crate::text::{decimal, digit_char, push_char, push_decimal, push_str};

verus! {

/// A progress update for one file being downloaded.
#[derive(Debug, Clone)]
pub struct DownloadProgress {
    /// File being downloaded
    pub file_name: String,
    /// Bytes downloaded so far
    pub downloaded: u64,
    /// Total bytes (if known)
    pub total: Option<u64>,
    /// Download speed (bytes per second)
    pub speed: u64,
    /// Whether the download is complete
    pub completed: bool,
    /// Error message if it failed
    pub error: Option<String>,
}

pub const KB: u64 = 1024;
pub const MB: u64 = 1048576;
pub const GB: u64 = 1073741824;

/// Two to the 53rd: below it every integer is exactly a 64-bit float.
pub const F64_EXACT_LIMIT: u64 = 9007199254740992;

pub open spec fn exp2(k: nat) -> nat
    decreases k,
{
    if k == 0 {
        1
    } else {
        2 * exp2((k - 1) as nat)
    }
}

/// How many low bits a 64-bit float drops when it holds `m`.
pub open spec fn f64_dropped_bits(m: nat) -> nat
    decreases m,
{
    if m < F64_EXACT_LIMIT {
        0
    } else {
        1 + f64_dropped_bits(m / 2)
    }
}

/// `n / d` rounded to the nearest integer, ties to the even one.
pub open spec fn div_round_half_even(n: nat, d: nat) -> nat
    recommends
        d > 0,
{
    let q = n / d;
    let r = n % d;
    if 2 * r > d || (2 * r == d && q % 2 == 1) {
        q + 1
    } else {
        q
    }
}

/// The value of `b as f64`: `b` rounded to 53 significant bits, ties to even.
pub open spec fn f64_of(b: nat) -> nat {
    let p = exp2(f64_dropped_bits(b));
    div_round_half_even(b, p) * p
}

/// `bytes / unit` as a 64-bit float, in hundredths, rounded half to even as
/// two-decimal formatting rounds it.
pub open spec fn hundredths(bytes: nat, unit: nat) -> nat {
    div_round_half_even(f64_of(bytes) * 100, unit)
}

/// `h / 100` written with exactly two decimals.
pub open spec fn two_decimals(h: nat) -> Seq<char> {
    decimal(h / 100).push('.').push(digit_char((h / 10) % 10)).push(digit_char(h % 10))
}

/// The text of `format_bytes(bytes)`.
pub open spec fn format_bytes_spec(bytes: nat) -> Seq<char> {
    if bytes >= GB {
        two_decimals(hundredths(bytes, GB as nat)) + " GB"@
    } else if bytes >= MB {
        two_decimals(hundredths(bytes, MB as nat)) + " MB"@
    } else if bytes >= KB {
        two_decimals(hundredths(bytes, KB as nat)) + " KB"@
    } else {
        decimal(bytes) + " B"@
    }
}

proof fn lemma_dropped_bits_step(m: nat)
    requires
        m >= F64_EXACT_LIMIT,
    ensures
        f64_dropped_bits(m) == 1 + f64_dropped_bits(m / 2),
{
}

/// Computes `b as f64` as an exact integer.
fn f64_value(b: u64) -> (v: u128)
    ensures
        v == f64_of(b as nat),
        v <= 0x2_0000_0000_0000_0000u128,
{
    let mut m: u64 = b;
    let mut p: u128 = 1;
    let ghost mut k: nat = 0;
    while m >= F64_EXACT_LIMIT
        invariant
            p == exp2(k),
            1 <= p,
            p == 1 || p * F64_EXACT_LIMIT <= 2 * b,
            m == b as nat / p as nat,
            f64_dropped_bits(b as nat) == k + f64_dropped_bits(m as nat),
        decreases m,
    {
        proof {
            lemma_dropped_bits_step(m as nat);
            vstd::arithmetic::div_mod::lemma_div_denominator(b as int, p as int, 2);
            vstd::arithmetic::div_mod::lemma_fundamental_div_mod(b as int, p as int);
            vstd::arithmetic::div_mod::lemma_mod_bound(b as int, p as int);
            assert(p * m <= b) by (nonlinear_arith)
                requires b as int == p * m + (b as int % p as int), b as int % p as int >= 0;
            assert(p * F64_EXACT_LIMIT <= p * m) by (nonlinear_arith)
                requires m >= F64_EXACT_LIMIT, p >= 1;
            k = k + 1;
        }
        m = m / 2;
        p = p * 2;
    }
    proof {
        vstd::arithmetic::div_mod::lemma_fundamental_div_mod(b as int, p as int);
        vstd::arithmetic::div_mod::lemma_mod_bound(b as int, p as int);
    }
    let q: u128 = m as u128;
    assert(q * p <= b) by (nonlinear_arith)
        requires b as int == p * q + (b as int % p as int), b as int % p as int >= 0;
    let r: u128 = (b as u128) - q * p;
    assert(r == b as nat % p as nat);
    let rounded: u128 = if 2 * r > p || (2 * r == p && q % 2 == 1) {
        q + 1
    } else {
        q
    };
    assert(rounded == div_round_half_even(b as nat, p as nat));
    assert(rounded * p <= 0x2_0000_0000_0000_0000) by (nonlinear_arith)
        requires
            rounded <= q + 1,
            q < F64_EXACT_LIMIT,
            p == 1 || p * F64_EXACT_LIMIT <= 2 * b,
            b < 0x1_0000_0000_0000_0000,
            p >= 1,
    ;
    rounded * p
}

/// Appends `h / 100` with two decimals.
fn push_two_decimals(s: &mut String, h: u64)
    ensures
        final(s)@ == old(s)@ + two_decimals(h as nat),
{
    push_decimal(s, h / 100);
    push_char(s, '.');
    push_decimal(s, (h / 10) % 10);
    push_decimal(s, h % 10);
    assert(old(s)@ + two_decimals(h as nat) =~= s@);
}

/// Formats `bytes` in B, KB, MB or GB (binary units), with two decimals above
/// a kilobyte, as `format!("{:.2} KB", bytes as f64 / 1024.0)` prints it.
pub fn format_bytes(bytes: u64) -> (s: String)
    ensures
        s@ == format_bytes_spec(bytes as nat),
{
    let mut s = String::new();
    if bytes >= KB {
        let unit: u64 = if bytes >= GB {
            GB
        } else if bytes >= MB {
            MB
        } else {
            KB
        };
        let v = f64_value(bytes);
        let n: u128 = v * 100;
        let q: u128 = n / (unit as u128);
        let r: u128 = n % (unit as u128);
        let h: u128 = if 2 * r > unit as u128 || (2 * r == unit as u128 && q % 2 == 1) {
            q + 1
        } else {
            q
        };
        assert(h <= 0x2_0000_0000_0000_0000u128 * 100 / 1024 + 1) by (nonlinear_arith)
            requires
                h <= q + 1,
                q == n / (unit as u128),
                n <= 0x2_0000_0000_0000_0000u128 * 100,
                unit >= 1024,
        ;
        push_two_decimals(&mut s, h as u64);
        if bytes >= GB {
            push_str(&mut s, " GB");
        } else if bytes >= MB {
            push_str(&mut s, " MB");
        } else {
            push_str(&mut s, " KB");
        }
    } else {
        push_decimal(&mut s, bytes);
        push_str(&mut s, " B");
    }
    s
}

/// Formats a transfer speed as `format_bytes(bytes_per_sec)` followed by `/s`.
pub fn format_speed(bytes_per_sec: u64) -> (s: String)
    ensures
        s@ == format_bytes_spec(bytes_per_sec as nat) + "/s"@,
{
    let mut s = format_bytes(bytes_per_sec);
    push_str(&mut s, "/s");
    s
}

/// The least `k` from `k` on (below 200) with `a * 2^k >= 2^52 * b`: scaled
/// by it, `a / b` has 53 bits before the point, as a 64-bit float keeps.
pub open spec fn scale_exponent(a: nat, b: nat, k: nat) -> nat
    decreases 200 - k,
{
    if k >= 200 || a * exp2(k) >= exp2(52) * b {
        k
    } else {
        scale_exponent(a, b, k + 1)
    }
}

/// `((d as f64 / t as f64) * 100.0).min(100.0) as u8` in exact integers:
/// both counts rounded to 64-bit floats; a quotient of at least one gives
/// 100; else the quotient rounded to 53 significant bits, times 100 rounded
/// again, then truncated and capped at 100.
pub open spec fn ratio_percent(d: nat, t: nat) -> nat {
    let a = f64_of(d);
    let b = f64_of(t);
    if a >= b {
        100
    } else if a == 0 {
        0
    } else {
        let k = scale_exponent(a, b, 0);
        let m = div_round_half_even(a * exp2(k), b);
        let r = f64_of(100 * m) / exp2(k);
        if r >= 100 {
            100
        } else {
            r
        }
    }
}

proof fn lemma_exp2_positive(k: nat)
    ensures
        exp2(k) >= 1,
    decreases k,
{
    if k > 0 {
        lemma_exp2_positive((k - 1) as nat);
    }
}

fn ratio_percent_exec(d: u64, t: u64) -> (p: u8)
    requires
        t > 0,
    ensures
        p == ratio_percent(d as nat, t as nat),
{
    let a = f64_value(d);
    let b = f64_value(t);
    if a >= b {
        return 100;
    }
    if a == 0 {
        return 0;
    }
    let ghost an = a as nat;
    let ghost bn = b as nat;
    let limit: u128 = 0x10_0000_0000_0000u128 * b;
    assert(exp2(52) == 0x10_0000_0000_0000) by {
        reveal_with_fuel(exp2, 53);
    }
    let mut k: u32 = 0;
    let mut scaled: u128 = a;
    let mut pow: u128 = 1;
    assert(exp2(0) == 1);
    while k < 200 && scaled < limit
        invariant
            1 <= a < b <= 0x2_0000_0000_0000_0000u128,
            an == a,
            bn == b,
            limit == exp2(52) * b,
            limit == 0x10_0000_0000_0000u128 * b,
            k <= 200,
            scaled == a * exp2(k as nat),
            pow == exp2(k as nat),
            pow <= scaled,
            scale_exponent(an, bn, k as nat) == scale_exponent(an, bn, 0),
            scaled < 2 * limit,
        decreases 200 - k,
    {
        proof {
            assert(an * exp2(k as nat) < exp2(52) * bn);
            assert(scale_exponent(an, bn, k as nat) == scale_exponent(an, bn, (k + 1) as nat));
            assert(exp2((k + 1) as nat) == 2 * exp2(k as nat));
            assert(a * (2 * exp2(k as nat)) == 2 * (a * exp2(k as nat))) by (nonlinear_arith);
        }
        scaled = scaled * 2;
        pow = pow * 2;
        k = k + 1;
    }
    assert(scale_exponent(an, bn, k as nat) == k);
    let q = scaled / b;
    let r = scaled % b;
    let m: u128 = if 2 * r > b || (2 * r == b && q % 2 == 1) {
        q + 1
    } else {
        q
    };
    assert(m == div_round_half_even(scaled as nat, bn));
    assert(q <= 2 * 0x10_0000_0000_0000u128) by (nonlinear_arith)
        requires q == scaled / b, scaled < 2 * (0x10_0000_0000_0000u128 * b), b >= 1;
    let hundred: u64 = (100 * m) as u64;
    let y = f64_value(hundred);
    proof {
        lemma_exp2_positive(k as nat);
    }
    let res = y / pow;
    if res >= 100 {
        100
    } else {
        res as u8
    }
}

impl DownloadProgress {
    /// Progress in percent: 0 without a known positive total, else the
    /// share received as the 64-bit float computation gives it, at most 100.
    pub fn percent(&self) -> (p: u8)
        ensures
            p == match self.total {
                Some(t) => if t > 0 {
                    ratio_percent(self.downloaded as nat, t as nat)
                } else {
                    0
                },
                None => 0,
            },
    {
        match self.total {
            Some(total) => {
                if total > 0 {
                    ratio_percent_exec(self.downloaded, total)
                } else {
                    0
                }
            },
            None => 0,
        }
    }
}

/// The progress of one file being downloaded, as the downloader reports it.
#[derive(Debug, Clone)]
pub struct DownloadSession {
    /// The file's name
    pub file_name: String,
    /// Bytes received so far
    pub downloaded: u64,
    /// The announced size, if the server gave one
    pub total: Option<u64>,
}

impl DownloadSession {
    /// A download of `file_name` that has received nothing, and the first
    /// progress report: nothing received, size unknown.
    pub fn start(file_name: String) -> (r: (Self, DownloadProgress))
        ensures
            r.0.file_name == file_name,
            r.0.downloaded == 0,
            r.0.total is None,
            r.1.file_name == file_name,
            r.1.downloaded == 0,
            r.1.total is None,
            r.1.speed == 0,
            !r.1.completed,
            r.1.error is None,
    {
        let progress = DownloadProgress {
            file_name: file_name.clone(),
            downloaded: 0,
            total: None,
            speed: 0,
            completed: false,
            error: None,
        };
        (DownloadSession { file_name, downloaded: 0, total: None }, progress)
    }

    /// The report of a refused request: nothing received, with the error.
    pub fn failed(&self, error: String) -> (p: DownloadProgress)
        ensures
            p.file_name == self.file_name,
            p.downloaded == 0,
            p.total is None,
            p.speed == 0,
            !p.completed,
            p.error == Some(error),
    {
        DownloadProgress {
            file_name: self.file_name.clone(),
            downloaded: 0,
            total: None,
            speed: 0,
            completed: false,
            error: Some(error),
        }
    }

    /// Takes the announced size of the response.
    pub fn set_total(&mut self, total: Option<u64>)
        ensures
            final(self).total == total,
            final(self).downloaded == old(self).downloaded,
            final(self).file_name == old(self).file_name,
    {
        self.total = total;
    }

    /// Counts a received chunk of `len` bytes and reports the progress, at
    /// the given speed.
    pub fn record_chunk(&mut self, len: u64, speed: u64) -> (p: DownloadProgress)
        requires
            old(self).downloaded + len <= u64::MAX,
        ensures
            final(self).downloaded == old(self).downloaded + len,
            final(self).total == old(self).total,
            final(self).file_name == old(self).file_name,
            p.file_name == old(self).file_name,
            p.downloaded == final(self).downloaded,
            p.total == old(self).total,
            p.speed == speed,
            !p.completed,
            p.error is None,
    {
        self.downloaded = self.downloaded + len;
        DownloadProgress {
            file_name: self.file_name.clone(),
            downloaded: self.downloaded,
            total: self.total,
            speed,
            completed: false,
            error: None,
        }
    }

    /// The final report: everything received, the size being what was received.
    pub fn finished(&self) -> (p: DownloadProgress)
        ensures
            p.file_name == self.file_name,
            p.downloaded == self.downloaded,
            p.total == Some(self.downloaded),
            p.speed == 0,
            p.completed,
            p.error is None,
    {
        DownloadProgress {
            file_name: self.file_name.clone(),
            downloaded: self.downloaded,
            total: Some(self.downloaded),
            speed: 0,
            completed: true,
            error: None,
        }
    }
}

/// How many downloads run at once: at least one.
pub fn concurrency_limit(requested: usize) -> (n: usize)
    ensures
        n == if requested >= 1 { requested } else { 1 },
{
    if requested >= 1 {
        requested
    } else {
        1
    }
}

/// The error of a batch of downloads: none when every download succeeded,
/// else how many failed.
pub fn batch_failure(failed: usize) -> (r: Option<String>)
    ensures
        failed == 0 ==> r is None,
        failed > 0 ==> (r matches Some(m) && m@ == decimal(failed as nat) + " download(s) failed"@),
{
    if failed == 0 {
        None
    } else {
        let mut m = String::new();
        push_decimal(&mut m, failed as u64);
        push_str(&mut m, " download(s) failed");
        Some(m)
    }
}

proof fn lemma_exp2_add(i: nat, j: nat)
    ensures
        exp2(i + j) == exp2(i) * exp2(j),
    decreases j,
{
    assert(exp2(0) == 1);
    if j > 0 {
        let j1 = (j - 1) as nat;
        lemma_exp2_add(i, j1);
        assert(((i + j) - 1) as nat == i + j1);
        assert(exp2(i + j) == 2 * exp2(i + j1));
        assert(exp2(j) == 2 * exp2(j1));
        let a = exp2(i);
        let c = exp2(j1);
        assert(a * (2 * c) == 2 * (a * c)) by (nonlinear_arith);
        assert(exp2(i + j) == a * exp2(j));
    } else {
        let a = exp2(i);
        assert(a * 1 == a) by (nonlinear_arith);
        assert(exp2(i + j) == a * exp2(j));
    }
}

proof fn lemma_exp2_monotone(i: nat, j: nat)
    requires
        i <= j,
    ensures
        exp2(i) <= exp2(j),
{
    lemma_exp2_add(i, (j - i) as nat);
    lemma_exp2_positive((j - i) as nat);
    lemma_exp2_positive(i);
    let a = exp2(i);
    let c = exp2((j - i) as nat);
    assert(a <= a * c) by (nonlinear_arith)
        requires c >= 1, a >= 1;
}

/// Rounding to the nearest multiple keeps order.
proof fn lemma_round_monotone(n1: nat, n2: nat, d: nat)
    requires
        n1 <= n2,
        d > 0,
    ensures
        div_round_half_even(n1, d) <= div_round_half_even(n2, d),
{
    let q1 = n1 / d;
    let q2 = n2 / d;
    vstd::arithmetic::div_mod::lemma_div_is_ordered(n1 as int, n2 as int, d as int);
    vstd::arithmetic::div_mod::lemma_fundamental_div_mod(n1 as int, d as int);
    vstd::arithmetic::div_mod::lemma_fundamental_div_mod(n2 as int, d as int);
    if q1 == q2 {
        assert(n1 % d <= n2 % d);
    }
}

/// The bits dropped for `m` leave fewer than 53 bits, and exactly 53 when
/// any are dropped.
proof fn lemma_dropped_bits_bounds(m: nat)
    ensures
        m < F64_EXACT_LIMIT * exp2(f64_dropped_bits(m)),
        f64_dropped_bits(m) > 0 ==> m >= (F64_EXACT_LIMIT / 2) * exp2(f64_dropped_bits(m)),
    decreases m,
{
    if m >= F64_EXACT_LIMIT {
        let e1 = f64_dropped_bits(m / 2);
        lemma_dropped_bits_bounds(m / 2);
        assert(f64_dropped_bits(m) == e1 + 1);
        assert(exp2(e1 + 1) == 2 * exp2(e1));
        assert(m >= 2 * (m / 2));
        assert(m <= 2 * (m / 2) + 1);
        let l = F64_EXACT_LIMIT as nat;
        let x = exp2(e1);
        assert(l / 2 * (2 * x) == l * x) by (nonlinear_arith)
            requires l == 9007199254740992;
        assert(l * (2 * x) == 2 * (l * x)) by (nonlinear_arith);
        if e1 == 0 {
            assert(exp2(0) == 1);
            assert(exp2(1) == 2);
        }
    }
}

proof fn lemma_dropped_bits_monotone(x: nat, y: nat)
    requires
        x <= y,
    ensures
        f64_dropped_bits(x) <= f64_dropped_bits(y),
    decreases y,
{
    if x >= F64_EXACT_LIMIT {
        lemma_dropped_bits_monotone(x / 2, y / 2);
    }
}

/// Converting to a 64-bit float keeps order.
proof fn lemma_f64_of_monotone(x: nat, y: nat)
    requires
        x <= y,
    ensures
        f64_of(x) <= f64_of(y),
{
    let ex = f64_dropped_bits(x);
    let ey = f64_dropped_bits(y);
    let px = exp2(ex);
    let py = exp2(ey);
    lemma_dropped_bits_monotone(x, y);
    lemma_exp2_positive(ex);
    lemma_exp2_positive(ey);
    if ex == ey {
        lemma_round_monotone(x, y, px);
        let rx = div_round_half_even(x, px);
        let ry = div_round_half_even(y, px);
        assert(rx * px <= ry * px) by (nonlinear_arith)
            requires rx <= ry, px >= 1;
    } else {
        let l = F64_EXACT_LIMIT as nat;
        lemma_dropped_bits_bounds(x);
        lemma_dropped_bits_bounds(y);
        vstd::arithmetic::div_mod::lemma_fundamental_div_mod(x as int, px as int);
        vstd::arithmetic::div_mod::lemma_fundamental_div_mod(y as int, py as int);
        vstd::arithmetic::div_mod::lemma_mod_bound(x as int, px as int);
        vstd::arithmetic::div_mod::lemma_mod_bound(y as int, py as int);
        let qx = x / px;
        let qy = y / py;
        assert(qx < l) by (nonlinear_arith)
            requires x == px * qx + x % px, x % px >= 0, x < l * px, px >= 1;
        assert(qy >= l / 2) by (nonlinear_arith)
            requires y == py * qy + y % py, y % py < py, y >= (l / 2) * py, py >= 1, l == 9007199254740992;
        let rx = div_round_half_even(x, px);
        let ry = div_round_half_even(y, py);
        assert(rx <= l);
        assert(ry >= l / 2);
        lemma_exp2_add(ex, (ey - ex) as nat);
        lemma_exp2_monotone(1, (ey - ex) as nat);
        assert(exp2(0) == 1);
        assert(exp2(1) == 2);
        let g = exp2((ey - ex) as nat);
        assert(rx * px <= ry * py) by (nonlinear_arith)
            requires rx <= l, ry >= l / 2, py == px * g, g >= 2, px >= 1, l == 9007199254740992;
    }
}

/// A number of at most 53 significant bits is its own 64-bit float.
proof fn lemma_f64_exact(c: nat, j: nat)
    requires
        c < F64_EXACT_LIMIT,
    ensures
        f64_of(c * exp2(j)) == c * exp2(j),
{
    let x = c * exp2(j);
    lemma_exact_dropped_bits(c, j);
    let e = f64_dropped_bits(x);
    let p = exp2(e);
    lemma_exp2_positive(e);
    lemma_exp2_add((j - e) as nat, e);
    let q = c * exp2((j - e) as nat);
    assert(x == q * p) by (nonlinear_arith)
        requires x == c * exp2(j), exp2(j) == exp2((j - e) as nat) * p, q == c * exp2((j - e) as nat);
    vstd::arithmetic::div_mod::lemma_div_by_multiple(q as int, p as int);
    vstd::arithmetic::div_mod::lemma_mod_multiples_basic(q as int, p as int);
    assert(x / p == q);
    assert(x % p == 0);
    assert(div_round_half_even(x, p) == q);
}

proof fn lemma_exact_dropped_bits(c: nat, j: nat)
    requires
        c < F64_EXACT_LIMIT,
    ensures
        f64_dropped_bits(c * exp2(j)) <= j,
    decreases j,
{
    if j == 0 {
        assert(exp2(0) == 1);
    } else {
        let y = c * exp2((j - 1) as nat);
        assert(exp2(j) == 2 * exp2((j - 1) as nat));
        assert(c * exp2(j) == 2 * y) by (nonlinear_arith)
            requires exp2(j) == 2 * exp2((j - 1) as nat), y == c * exp2((j - 1) as nat);
        lemma_exact_dropped_bits(c, (j - 1) as nat);
        assert((2 * y) / 2 == y);
    }
}

/// The exponent that scales `a / b` to 53 bits: the first one from `k0` on
/// that reaches 2^52 times `b`, or 200.
proof fn lemma_scale_exponent(a: nat, b: nat, k0: nat)
    requires
        k0 <= 200,
    ensures
        k0 <= scale_exponent(a, b, k0) <= 200,
        scale_exponent(a, b, k0) < 200 ==> a * exp2(scale_exponent(a, b, k0)) >= exp2(52) * b,
        forall|j: nat| k0 <= j < scale_exponent(a, b, k0) ==> #[trigger] (a * exp2(j)) < exp2(52) * b,
    decreases 200 - k0,
{
    if !(k0 >= 200 || a * exp2(k0) >= exp2(52) * b) {
        lemma_scale_exponent(a, b, k0 + 1);
    }
}

/// The exact value of `100 * 2^52` as a float, and of `100 * 2^53`.
proof fn lemma_hundred_powers()
    ensures
        f64_of(100 * exp2(52)) == 100 * exp2(52),
        f64_of(100 * exp2(53)) == 100 * exp2(53),
        exp2(53) == 2 * exp2(52),
{
    lemma_f64_exact(100, 52);
    lemma_f64_exact(100, 53);
}

proof fn lemma_ratio_percent_monotone(d1: nat, d2: nat, t: nat)
    requires
        d1 <= d2,
        t > 0,
    ensures
        ratio_percent(d1, t) <= ratio_percent(d2, t),
{
    let a1 = f64_of(d1);
    let a2 = f64_of(d2);
    let b = f64_of(t);
    lemma_f64_of_monotone(d1, d2);
    lemma_f64_of_monotone(1, t);
    lemma_f64_exact(1, 0);
    assert(exp2(0) == 1);
    assert(b >= 1);
    if a2 >= b || a1 == 0 {
        return;
    }
    let e = exp2(52);
    lemma_exp2_positive(52);
    let k1 = scale_exponent(a1, b, 0);
    let k2 = scale_exponent(a2, b, 0);
    lemma_scale_exponent(a1, b, 0);
    lemma_scale_exponent(a2, b, 0);
    // k1 is at least one: a1 itself lies below b
    assert(a1 * exp2(0) < e * b) by (nonlinear_arith)
        requires a1 < b, e >= 1, exp2(0) == 1;
    assert(k1 >= 1);
    // k1 is at least k2
    if k1 < k2 {
        lemma_exp2_positive(k1);
        let p = exp2(k1);
        assert(a1 * p <= a2 * p) by (nonlinear_arith)
            requires a1 <= a2, p >= 1;
        assert(a2 * exp2(k1) < e * b);
        assert(false);
    }
    let p1 = exp2(k1);
    let p2 = exp2(k2);
    lemma_exp2_positive(k1);
    lemma_exp2_positive(k2);
    let m1 = div_round_half_even(a1 * p1, b);
    let m2 = div_round_half_even(a2 * p2, b);
    let x1 = f64_of(100 * m1);
    let x2 = f64_of(100 * m2);
    if k1 == k2 {
        assert(a1 * p1 <= a2 * p1) by (nonlinear_arith)
            requires a1 <= a2, p1 >= 1;
        lemma_round_monotone(a1 * p1, a2 * p1, b);
        lemma_f64_of_monotone(100 * m1, 100 * m2);
        vstd::arithmetic::div_mod::lemma_div_is_ordered(x1 as int, x2 as int, p1 as int);
    } else {
        lemma_hundred_powers();
        // m2 reaches 2^52
        let n2 = a2 * p2;
        vstd::arithmetic::div_mod::lemma_fundamental_div_mod(n2 as int, b as int);
        vstd::arithmetic::div_mod::lemma_mod_bound(n2 as int, b as int);
        assert(n2 / b >= e) by (nonlinear_arith)
            requires n2 == b * (n2 / b) + n2 % b, n2 % b < b, n2 >= e * b, b >= 1;
        assert(m2 >= e);
        lemma_f64_of_monotone(100 * e, 100 * m2);
        // m1 stays at most 2^53
        let h = exp2((k1 - 1) as nat);
        assert(p1 == 2 * h);
        assert(a1 * h < e * b);
        let n1 = a1 * p1;
        assert(n1 < 2 * e * b) by (nonlinear_arith)
            requires n1 == a1 * p1, p1 == 2 * h, a1 * h < e * b;
        vstd::arithmetic::div_mod::lemma_fundamental_div_mod(n1 as int, b as int);
        vstd::arithmetic::div_mod::lemma_mod_bound(n1 as int, b as int);
        assert(n1 / b < 2 * e) by (nonlinear_arith)
            requires n1 == b * (n1 / b) + n1 % b, n1 % b >= 0, n1 < 2 * e * b, b >= 1;
        assert(m1 <= 2 * e);
        lemma_f64_of_monotone(100 * m1, 100 * (2 * e));
        assert(100 * (2 * e) == 100 * exp2(53));
        // compare the two quotients
        let big = 100 * exp2(53);
        let small = 100 * e;
        vstd::arithmetic::div_mod::lemma_div_is_ordered(x1 as int, big as int, p1 as int);
        lemma_exp2_monotone(k2 + 1, k1);
        assert(exp2(k2 + 1) == 2 * p2);
        vstd::arithmetic::div_mod::lemma_div_is_ordered_by_denominator(big as int, (2 * p2) as int, p1 as int);
        vstd::arithmetic::div_mod::lemma_div_denominator(big as int, 2, p2 as int);
        assert(big == 2 * small);
        vstd::arithmetic::div_mod::lemma_div_by_multiple(small as int, 2);
        assert(big / 2 == small);
        vstd::arithmetic::div_mod::lemma_div_is_ordered(small as int, x2 as int, p2 as int);
        assert(x1 / p1 <= x2 / p2);
    }
}

/// For a given total, the download percentage never goes back as more bytes
/// arrive, never exceeds 100, and is 100 once every byte has arrived.
pub proof fn lemma_percent_progress(downloaded1: u64, downloaded2: u64, total: u64)
    requires
        downloaded1 <= downloaded2,
        total > 0,
    ensures
        ratio_percent(downloaded1 as nat, total as nat) <= ratio_percent(downloaded2 as nat, total as nat),
        ratio_percent(downloaded2 as nat, total as nat) <= 100,
        downloaded2 >= total ==> ratio_percent(downloaded2 as nat, total as nat) == 100,
{
    lemma_ratio_percent_monotone(downloaded1 as nat, downloaded2 as nat, total as nat);
    if downloaded2 >= total {
        lemma_f64_of_monotone(total as nat, downloaded2 as nat);
    }
}

} // verus!
