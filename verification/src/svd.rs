//! The device-description model behind the register-binding generator:
//! peripherals, registers and fields parsed from a chip description,
//! the numeric and access-mode string forms they use, and the
//! normalisation the generator applies before emitting code.
//!
//! Reading the XML file and emitting Rust source are left to the host
//! tool around this crate; everything that decides or computes on the
//! decoded description lives here.

use vstd::prelude::*;

use vstd::string::StringSliceAdditionalSpecFns;

verus! {

/// How a register field may be accessed.
#[derive(Copy, Clone, Debug, PartialEq, Eq, Structural)]
pub enum Access {
    ReadOnly,
    WriteOnly,
    ReadWrite,
}

impl Default for Access {
    /// Fields that name no access mode are read-write.
    fn default() -> (a: Access)
        ensures
            a == Access::ReadWrite,
    {
        Access::ReadWrite
    }
}

/// One bit field of a register.
pub struct Field {
    /// The field's name.
    pub name: String,
    /// The field's lowest bit position.
    pub bit_offset: usize,
    /// How many bits the field spans.
    pub bit_width: usize,
    /// The field's access mode, if the description gives one.
    pub access: Option<Access>,
}

/// One register of a peripheral.
pub struct Register {
    /// The register's name.
    pub name: String,
    /// The register's offset from the peripheral's base address.
    pub address_offset: u32,
    /// The register-wide access mode, if the description gives one.
    pub access: Option<Access>,
    /// The register's bit fields.
    pub fields: Vec<Field>,
}

/// One peripheral of the device.
pub struct Peripheral {
    /// The name of the peripheral this one inherits from, if any.
    pub derived_from: Option<String>,
    /// The peripheral's name.
    pub name: String,
    /// The peripheral's base address, if the description gives one.
    pub base_address: Option<u32>,
    /// The peripheral's registers, if the description gives them.
    pub registers: Option<Vec<Register>>,
}

/// A whole device description.
pub struct Device {
    /// The device's peripherals.
    pub peripherals: Vec<Peripheral>,
}

/// A bit field at the spec level.
pub struct FieldV {
    /// The field's name.
    pub name: Seq<char>,
    /// The field's lowest bit position.
    pub bit_offset: usize,
    /// How many bits the field spans.
    pub bit_width: usize,
    /// The field's access mode, if any.
    pub access: Option<Access>,
}

/// A register at the spec level.
pub struct RegisterV {
    /// The register's name.
    pub name: Seq<char>,
    /// The register's offset from the peripheral's base address.
    pub address_offset: u32,
    /// The register-wide access mode, if any.
    pub access: Option<Access>,
    /// The register's bit fields.
    pub fields: Seq<FieldV>,
}

/// A peripheral at the spec level.
pub struct PeripheralV {
    /// The name of the peripheral this one inherits from, if any.
    pub derived_from: Option<Seq<char>>,
    /// The peripheral's name.
    pub name: Seq<char>,
    /// The peripheral's base address, if any.
    pub base_address: Option<u32>,
    /// The peripheral's registers, if any.
    pub registers: Option<Seq<RegisterV>>,
}

impl View for Field {
    type V = FieldV;

    open spec fn view(&self) -> FieldV {
        FieldV {
            name: self.name@,
            bit_offset: self.bit_offset,
            bit_width: self.bit_width,
            access: self.access,
        }
    }
}

impl View for Register {
    type V = RegisterV;

    open spec fn view(&self) -> RegisterV {
        RegisterV {
            name: self.name@,
            address_offset: self.address_offset,
            access: self.access,
            fields: self.fields@.map_values(|f: Field| f@),
        }
    }
}

impl View for Peripheral {
    type V = PeripheralV;

    open spec fn view(&self) -> PeripheralV {
        PeripheralV {
            derived_from: match self.derived_from {
                Some(df) => Some(df@),
                None => None,
            },
            name: self.name@,
            base_address: self.base_address,
            registers: match self.registers {
                Some(rs) => Some(rs@.map_values(|r: Register| r@)),
                None => None,
            },
        }
    }
}

impl View for Device {
    type V = Seq<PeripheralV>;

    open spec fn view(&self) -> Seq<PeripheralV> {
        self.peripherals@.map_values(|p: Peripheral| p@)
    }
}

/// An exact copy of a field.
pub fn clone_field(f: &Field) -> (r: Field)
    ensures
        r@ == f@,
{
    Field {
        name: f.name.clone(),
        bit_offset: f.bit_offset,
        bit_width: f.bit_width,
        access: f.access,
    }
}

/// An exact copy of a register.
pub fn clone_register(r: &Register) -> (c: Register)
    ensures
        c@ == r@,
{
    let mut fields: Vec<Field> = Vec::new();
    let mut i: usize = 0;
    while i < r.fields.len()
        invariant
            i <= r.fields@.len(),
            fields@.len() == i,
            forall|j: int| 0 <= j < i ==> #[trigger] fields@[j]@ == r.fields@[j]@,
        decreases r.fields@.len() - i,
    {
        fields.push(clone_field(&r.fields[i]));
        i = i + 1;
    }
    let c = Register {
        name: r.name.clone(),
        address_offset: r.address_offset,
        access: r.access,
        fields,
    };
    proof {
        assert(c@.fields =~= r@.fields);
    }
    c
}

/// An exact copy of a register list.
pub fn clone_registers(rs: &Vec<Register>) -> (c: Vec<Register>)
    ensures
        c@.map_values(|r: Register| r@) == rs@.map_values(|r: Register| r@),
{
    let mut out: Vec<Register> = Vec::new();
    let mut i: usize = 0;
    while i < rs.len()
        invariant
            i <= rs@.len(),
            out@.len() == i,
            forall|j: int| 0 <= j < i ==> #[trigger] out@[j]@ == rs@[j]@,
        decreases rs@.len() - i,
    {
        out.push(clone_register(&rs[i]));
        i = i + 1;
    }
    proof {
        assert(out@.map_values(|r: Register| r@) =~= rs@.map_values(|r: Register| r@));
    }
    out
}

/// An exact copy of a peripheral.
pub fn clone_peripheral(p: &Peripheral) -> (c: Peripheral)
    ensures
        c@ == p@,
{
    let derived_from = match &p.derived_from {
        Some(df) => Some(df.clone()),
        None => None,
    };
    let registers = match &p.registers {
        Some(rs) => Some(clone_registers(rs)),
        None => None,
    };
    let c = Peripheral { derived_from, name: p.name.clone(), base_address: p.base_address, registers };
    c
}

/// The index of the first peripheral named `name` at or after `i`.
pub open spec fn find_from(ps: Seq<PeripheralV>, name: Seq<char>, i: int) -> Option<int>
    decreases ps.len() - i,
{
    if i < 0 || i >= ps.len() {
        None
    } else if ps[i].name == name {
        Some(i)
    } else {
        find_from(ps, name, i + 1)
    }
}

impl Device {
    /// Find the first peripheral with the given name.
    pub fn find_peripheral(&self, name: &String) -> (r: Option<usize>)
        ensures
            match r {
                Some(i) => i < self@.len() && find_from(self@, name@, 0) == Some(i as int),
                None => find_from(self@, name@, 0) is None,
            },
    {
        let mut i: usize = 0;
        while i < self.peripherals.len()
            invariant
                i <= self@.len(),
                self@.len() == self.peripherals@.len(),
                find_from(self@, name@, 0) == find_from(self@, name@, i as int),
            decreases self@.len() - i,
        {
            if self.peripherals[i].name == *name {
                return Some(i);
            }
            i = i + 1;
        }
        None
    }

    /// Keep only the peripherals whose names appear in `only`; an empty
    /// list keeps everything.
    pub fn filter(&mut self, only: &Vec<String>)
        ensures
            only@.len() == 0 ==> final(self)@ == old(self)@,
            only@.len() > 0 ==> final(self)@ == old(self)@.filter(
                |p: PeripheralV| contains_name(only@.map_values(|s: String| s@), p.name),
            ),
    {
        if only.len() == 0 {
            return ;
        }
        let mut out: Vec<Peripheral> = Vec::new();
        let mut i: usize = 0;
        while i < self.peripherals.len()
            invariant
                i <= self.peripherals@.len(),
                out@.map_values(|p: Peripheral| p@) == old(self)@.take(i as int).filter(
                    |p: PeripheralV| contains_name(only@.map_values(|s: String| s@), p.name),
                ),
                self.peripherals == old(self).peripherals,
                only@.len() > 0,
            decreases self.peripherals@.len() - i,
        {
            let keep = contains_string(only, &self.peripherals[i].name);
            let ghost pre = out@.map_values(|p: Peripheral| p@);
            if keep {
                out.push(clone_peripheral(&self.peripherals[i]));
            }
            i = i + 1;
            proof {
                assert(old(self)@.take(i as int) =~= old(self)@.take(i - 1).push(
                    old(self)@[i - 1],
                ));
                crate::svd::lemma_filter_snoc(
                    old(self)@.take(i - 1),
                    old(self)@[i - 1],
                    |p: PeripheralV| contains_name(only@.map_values(|s: String| s@), p.name),
                );
                assert(out@.map_values(|p: Peripheral| p@) =~= old(self)@.take(i as int).filter(
                    |p: PeripheralV| contains_name(only@.map_values(|s: String| s@), p.name),
                ));
            }
        }
        self.peripherals = out;
        proof {
            assert(old(self)@.take(old(self)@.len() as int) =~= old(self)@);
        }
    }
}

/// Whether `names` holds `name`.
pub open spec fn contains_name(names: Seq<Seq<char>>, name: Seq<char>) -> bool {
    exists|i: int| 0 <= i < names.len() && names[i] == name
}

/// Whether one of the strings in `names` equals `name`.
pub fn contains_string(names: &Vec<String>, name: &String) -> (r: bool)
    ensures
        r == contains_name(names@.map_values(|s: String| s@), name@),
{
    let mut i: usize = 0;
    while i < names.len()
        invariant
            i <= names@.len(),
            forall|j: int| 0 <= j < i ==> #[trigger] names@[j]@ != name@,
        decreases names@.len() - i,
    {
        if names[i] == *name {
            proof {
                assert(names@.map_values(|s: String| s@)[i as int] == name@);
            }
            return true;
        }
        i = i + 1;
    }
    false
}

/// Filtering a sequence extended by one element.
pub proof fn lemma_filter_snoc<A>(s: Seq<A>, x: A, pred: spec_fn(A) -> bool)
    ensures
        s.push(x).filter(pred) == if pred(x) {
            s.filter(pred).push(x)
        } else {
            s.filter(pred)
        },
{
    reveal(Seq::filter);
    assert(s.push(x).drop_last() =~= s);
}

/// Lower-case one ASCII byte.
pub open spec fn lower_ascii(c: u8) -> u8 {
    if 65 <= c <= 90 {
        (c + 32) as u8
    } else {
        c
    }
}

/// Lower-case a whole byte string.
pub open spec fn lower_bytes(s: Seq<u8>) -> Seq<u8> {
    s.map_values(|c: u8| lower_ascii(c))
}

/// Drop every leading `"0x"` pair, as repeated prefix trimming does.
pub open spec fn strip_hex_prefixes(s: Seq<u8>) -> Seq<u8>
    decreases s.len(),
{
    if s.len() >= 2 && s[0] == 48 && s[1] == 120 {
        strip_hex_prefixes(s.skip(2))
    } else {
        s
    }
}

/// The value of one digit byte under `radix`, if it is a digit there.
/// Letters count from ten in either case.
pub open spec fn digit_of(c: u8, radix: u32) -> Option<u32> {
    if 48 <= c <= 57 && (c - 48) < radix {
        Some((c - 48) as u32)
    } else if 97 <= c <= 122 && (c - 87) < radix {
        Some((c - 87) as u32)
    } else if 65 <= c <= 90 && (c - 55) < radix {
        Some((c - 55) as u32)
    } else {
        None
    }
}

/// The unbounded value of a digit string under `radix`; an empty string
/// or any non-digit makes it undefined.
pub open spec fn digits_value(s: Seq<u8>, radix: u32) -> Option<nat>
    decreases s.len(),
{
    if s.len() == 0 {
        None
    } else if s.len() == 1 {
        match digit_of(s[0], radix) {
            Some(d) => Some(d as nat),
            None => None,
        }
    } else {
        match (digits_value(s.drop_last(), radix), digit_of(s.last(), radix)) {
            (Some(a), Some(d)) => Some((a * radix + d) as nat),
            _ => None,
        }
    }
}

/// The value of a digit string with an optional single leading sign; a
/// minus sign is accepted only on a zero value, since the result is
/// unsigned.
pub open spec fn int_value(s: Seq<u8>, radix: u32) -> Option<nat> {
    if s.len() >= 1 && (s[0] == 43 || s[0] == 45) {
        match digits_value(s.skip(1), radix) {
            Some(n) => if s[0] == 45 && n != 0 {
                None
            } else {
                Some(n)
            },
            None => None,
        }
    } else {
        digits_value(s, radix)
    }
}

/// How the description's number strings are read: the string is
/// lower-cased, every leading `"0x"` is trimmed, the base is sixteen when
/// a prefix was trimmed and ten otherwise, and the value must fit in
/// thirty-two bits.
pub open spec fn parse_u32_spec(s: Seq<u8>) -> Option<u32> {
    let low = lower_bytes(s);
    let digits = strip_hex_prefixes(low);
    let radix: u32 = if digits == low {
        10
    } else {
        16
    };
    match int_value(digits, radix) {
        Some(n) => if n <= u32::MAX {
            Some(n as u32)
        } else {
            None
        },
        None => None,
    }
}

/// A string with a non-digit in it has no digit-string value.
proof fn lemma_digits_value_invalid(s: Seq<u8>, radix: u32, i: int)
    requires
        0 <= i < s.len(),
        digit_of(s[i], radix) is None,
    ensures
        digits_value(s, radix) is None,
    decreases s.len(),
{
    if s.len() > 1 && i < s.len() - 1 {
        lemma_digits_value_invalid(s.drop_last(), radix, i);
    }
}

/// A digit string is worth at least any of its non-empty prefixes.
proof fn lemma_digits_value_prefix(s: Seq<u8>, radix: u32, k: int)
    requires
        1 <= k <= s.len(),
        radix >= 2,
        digits_value(s, radix) is Some,
    ensures
        digits_value(s.take(k), radix) is Some,
        digits_value(s.take(k), radix).unwrap() <= digits_value(s, radix).unwrap(),
    decreases s.len(),
{
    if k == s.len() {
        assert(s.take(k) =~= s);
    } else {
        assert(s.len() > 1);
        let a = digits_value(s.drop_last(), radix).unwrap();
        let d = digit_of(s.last(), radix).unwrap();
        assert(a * radix + d >= a) by (nonlinear_arith)
            requires
                radix >= 2,
                a >= 0,
                d >= 0,
        ;
        assert(s.drop_last().take(k) =~= s.take(k));
        lemma_digits_value_prefix(s.drop_last(), radix, k);
    }
}

/// Read a number the way the device description writes them: decimal, or
/// hexadecimal behind a `"0x"` prefix, in either letter case.
#[verifier::rlimit(100)]
pub fn parse_u32(s: &str) -> (r: Option<u32>)
    ensures
        r == parse_u32_spec(s.spec_bytes()),
{
    let bytes = s.as_bytes();
    let ghost low_s = lower_bytes(s.spec_bytes());

    // Lower-case into a scratch buffer.
    let mut low: Vec<u8> = Vec::new();
    let mut i: usize = 0;
    while i < bytes.len()
        invariant
            i <= bytes@.len(),
            bytes@ == s.spec_bytes(),
            low@.len() == i,
            forall|j: int| 0 <= j < i ==> #[trigger] low@[j] == lower_ascii(bytes@[j]),
        decreases bytes@.len() - i,
    {
        let c = bytes[i];
        if 65 <= c && c <= 90 {
            low.push(c + 32);
        } else {
            low.push(c);
        }
        i = i + 1;
    }
    proof {
        assert(low@ =~= low_s);
    }

    // Trim every leading hexadecimal prefix.
    let mut start: usize = 0;
    proof {
        assert(low_s.skip(0) =~= low_s);
    }
    while low.len() - start >= 2 && low[start] == 48 && low[start + 1] == 120
        invariant
            start <= low@.len(),
            low@ == low_s,
            strip_hex_prefixes(low_s) == strip_hex_prefixes(low_s.skip(start as int)),
        decreases low@.len() - start,
    {
        proof {
            assert(low_s.skip(start as int).skip(2) =~= low_s.skip(start as int + 2));
        }
        start = start + 2;
    }
    let ghost digits = strip_hex_prefixes(low_s);
    proof {
        assert(digits == low_s.skip(start as int));
        assert(low_s.skip(0) =~= low_s);
        if start > 0 {
            assert(digits.len() < low_s.len());
        }
    }
    let radix: u32 = if start == 0 {
        10
    } else {
        16
    };

    // A single leading sign.
    let mut neg = false;
    let mut idx = start;
    let mut signed = false;
    if idx < low.len() && (low[idx] == 43 || low[idx] == 45) {
        neg = low[idx] == 45;
        signed = true;
        idx = idx + 1;
    }
    let ghost dstart = idx as int;
    let ghost whole = low_s.subrange(dstart, low_s.len() as int);
    proof {
        if dstart > start as int {
            assert(digits.skip(1) =~= whole);
        } else {
            assert(digits =~= whole);
        }
    }
    if idx >= low.len() {
        // No digits at all.
        return None;
    }

    // Accumulate the digits.
    let mut acc: u64 = 0;
    let mut j = idx;
    while j < low.len()
        invariant
            idx <= j <= low@.len(),
            idx < low@.len(),
            low@ == low_s,
            low_s == lower_bytes(s.spec_bytes()),
            digits == strip_hex_prefixes(low_s),
            digits == low_s.skip(start as int),
            !signed ==> low_s[dstart] != 43 && low_s[dstart] != 45,
            start == 0 ==> digits == low_s,
            start > 0 ==> digits != low_s,
            radix == (if start == 0 {
                10u32
            } else {
                16u32
            }),
            dstart == idx,
            radix == 10 || radix == 16,
            acc <= u32::MAX,
            whole == low_s.subrange(dstart, low_s.len() as int),
            dstart > start ==> digits.skip(1) == whole,
            dstart == start ==> digits == whole,
            start <= dstart <= start + 1,
            signed == (dstart == start + 1),
            signed ==> (low_s[start as int] == 43 || low_s[start as int] == 45) && neg == (low_s[
                start as int] == 45),
            !signed ==> !neg,
            j > idx ==> digits_value(low_s.subrange(dstart, j as int), radix as u32) == Some(
                acc as nat,
            ),
            j == idx ==> acc == 0,
        decreases low@.len() - j,
    {
        let c = low[j];
        let d: u32 = if 48 <= c && c <= 57 && ((c - 48) as u32) < radix {
            (c - 48) as u32
        } else if 97 <= c && c <= 122 && ((c - 87) as u32) < radix {
            (c - 87) as u32
        } else {
            proof {
                assert(low_s.len() == s.spec_bytes().len());
                assert(low_s[j as int] == lower_ascii(s.spec_bytes()[j as int]));
                assert(!(65 <= c <= 90));
                assert(digit_of(c, radix as u32) is None);
                lemma_digits_value_invalid(whole, radix as u32, j - dstart);
                if signed {
                    assert(digits[0] == low_s[start as int]);
                }
                assert(int_value(digits, radix as u32) is None);
            }
            return None;
        };
        proof {
            assert(digit_of(low_s[j as int], radix as u32) == Some(d));
        }
        let next: u64 = acc * (radix as u64) + (d as u64);
        let ghost prefix = low_s.subrange(dstart, j as int);
        let ghost prefix1 = low_s.subrange(dstart, j as int + 1);
        proof {
            assert(prefix1.drop_last() =~= prefix);
            assert(prefix1.last() == low_s[j as int]);
            if j == idx {
                assert(prefix1.len() == 1);
            } else {
                assert(digits_value(prefix1, radix as u32) == Some(
                    ((acc as nat) * (radix as nat) + d) as nat,
                ));
            }
        }
        if next > (u32::MAX as u64) {
            proof {
                assert(digits_value(prefix1, radix as u32) == Some(next as nat));
                if digits_value(whole, radix as u32) is Some {
                    lemma_digits_value_prefix(whole, radix as u32, j + 1 - dstart);
                    assert(whole.take(j + 1 - dstart) =~= prefix1);
                    assert(digits_value(whole, radix as u32).unwrap() > u32::MAX);
                }
                if signed {
                    assert(digits[0] == low_s[start as int]);
                }
                assert(parse_u32_spec(s.spec_bytes()) is None);
            }
            return None;
        }
        acc = next as u64;
        j = j + 1;
    }
    proof {
        assert(low_s.subrange(dstart, low_s.len() as int) =~= whole);
        assert(digits_value(whole, radix as u32) == Some(acc as nat));
    }
    if neg && acc != 0 {
        return None;
    }
    Some(acc as u32)
}

/// The access mode named by an access string, if it names one.
pub open spec fn access_of(s: Seq<u8>) -> Option<Access> {
    if s == seq![
        114u8,
        101u8,
        97u8,
        100u8,
        45u8,
        111u8,
        110u8,
        108u8,
        121u8,
    ] {
        Some(Access::ReadOnly)
    } else if s == seq![
        119u8,
        114u8,
        105u8,
        116u8,
        101u8,
        45u8,
        111u8,
        110u8,
        108u8,
        121u8,
    ] {
        Some(Access::WriteOnly)
    } else if s == seq![
        114u8,
        101u8,
        97u8,
        100u8,
        45u8,
        119u8,
        114u8,
        105u8,
        116u8,
        101u8,
    ] {
        Some(Access::ReadWrite)
    } else {
        None
    }
}

/// Whether two byte strings hold the same bytes.
fn bytes_eq(a: &[u8], b: &Vec<u8>) -> (r: bool)
    ensures
        r == (a@ == b@),
{
    if a.len() != b.len() {
        proof {
            assert(a@.len() != b@.len());
        }
        return false;
    }
    let n = a.len();
    let mut i: usize = 0;
    while i < n
        invariant
            i <= n,
            n == a@.len(),
            n == b@.len(),
            forall|j: int| 0 <= j < i ==> #[trigger] a@[j] == b@[j],
        decreases n - i,
    {
        if a[i] != b[i] {
            return false;
        }
        i = i + 1;
    }
    proof {
        assert(a@ =~= b@);
    }
    true
}

/// Read an access mode the way the device description writes them:
/// `"read-only"`, `"write-only"` or `"read-write"`.
pub fn parse_access(s: &str) -> (r: Option<Access>)
    ensures
        r == access_of(s.spec_bytes()),
{
    let bytes = s.as_bytes();
    let mut ro: Vec<u8> = Vec::new();
    ro.push(114u8);
    ro.push(101u8);
    ro.push(97u8);
    ro.push(100u8);
    ro.push(45u8);
    ro.push(111u8);
    ro.push(110u8);
    ro.push(108u8);
    ro.push(121u8);
    let mut wo: Vec<u8> = Vec::new();
    wo.push(119u8);
    wo.push(114u8);
    wo.push(105u8);
    wo.push(116u8);
    wo.push(101u8);
    wo.push(45u8);
    wo.push(111u8);
    wo.push(110u8);
    wo.push(108u8);
    wo.push(121u8);
    let mut rw: Vec<u8> = Vec::new();
    rw.push(114u8);
    rw.push(101u8);
    rw.push(97u8);
    rw.push(100u8);
    rw.push(45u8);
    rw.push(119u8);
    rw.push(114u8);
    rw.push(105u8);
    rw.push(116u8);
    rw.push(101u8);
    proof {
        assert(ro@ =~= seq![114u8, 101u8, 97u8, 100u8, 45u8, 111u8, 110u8, 108u8, 121u8]);
        assert(wo@ =~= seq![119u8, 114u8, 105u8, 116u8, 101u8, 45u8, 111u8, 110u8, 108u8, 121u8]);
        assert(rw@ =~= seq![114u8, 101u8, 97u8, 100u8, 45u8, 119u8, 114u8, 105u8, 116u8, 101u8]);
    }
    if bytes_eq(bytes, &ro) {
        Some(Access::ReadOnly)
    } else if bytes_eq(bytes, &wo) {
        Some(Access::WriteOnly)
    } else if bytes_eq(bytes, &rw) {
        Some(Access::ReadWrite)
    } else {
        None
    }
}

/// The first of two access modes that is present, if either is.
pub open spec fn or_access(a: Option<Access>, b: Option<Access>) -> Option<Access> {
    if a is Some {
        a
    } else {
        b
    }
}

/// A field after inheriting its register's access mode where it has none.
pub open spec fn inherit_field_spec(f: FieldV, r_access: Option<Access>) -> FieldV {
    FieldV { access: or_access(f.access, r_access), ..f }
}

/// A register after pushing its access mode down to its fields.
pub open spec fn inherit_register_spec(r: RegisterV) -> RegisterV {
    RegisterV {
        fields: Seq::new(r.fields.len(), |k: int| inherit_field_spec(r.fields[k], r.access)),
        ..r
    }
}

/// A peripheral after pushing register access modes down to fields.
pub open spec fn inherit_peripheral_spec(p: PeripheralV) -> PeripheralV {
    PeripheralV {
        registers: match p.registers {
            Some(rs) => Some(Seq::new(rs.len(), |j: int| inherit_register_spec(rs[j]))),
            None => None,
        },
        ..p
    }
}

/// A derived peripheral after taking the base address and registers it
/// lacks from its base.
pub open spec fn rebase_spec(p: PeripheralV, base: PeripheralV) -> PeripheralV {
    PeripheralV {
        base_address: if p.base_address is Some {
            p.base_address
        } else {
            base.base_address
        },
        registers: if p.registers is Some {
            p.registers
        } else {
            base.registers
        },
        ..p
    }
}

/// Peripheral `i` with its inheritance relationship resolved against the
/// peripheral list as handed in: a derived peripheral is rebased onto the
/// first peripheral carrying the name it derives from.
pub open spec fn resolved_spec(ps: Seq<PeripheralV>, i: int) -> PeripheralV {
    let p = ps[i];
    match p.derived_from {
        None => p,
        Some(df) => match find_from(ps, df, 0) {
            Some(b) => rebase_spec(p, ps[b]),
            None => p,
        },
    }
}

/// A register with its access mode pushed down to every field that names
/// none of its own.
pub fn inherit_register(r: &Register) -> (c: Register)
    ensures
        c@ == inherit_register_spec(r@),
{
    let racc = r.access;
    let mut fields: Vec<Field> = Vec::new();
    let mut k: usize = 0;
    while k < r.fields.len()
        invariant
            k <= r.fields@.len(),
            fields@.len() == k,
            forall|j: int|
                0 <= j < k ==> #[trigger] fields@[j]@ == inherit_field_spec(r.fields@[j]@, racc),
        decreases r.fields@.len() - k,
    {
        let f = &r.fields[k];
        let access = match f.access {
            Some(a) => Some(a),
            None => racc,
        };
        fields.push(
            Field {
                name: f.name.clone(),
                bit_offset: f.bit_offset,
                bit_width: f.bit_width,
                access,
            },
        );
        k = k + 1;
    }
    let c = Register { name: r.name.clone(), address_offset: r.address_offset, access: racc, fields };
    proof {
        assert(c@.fields =~= inherit_register_spec(r@).fields);
    }
    c
}

/// Every register of a list with its access mode pushed down.
pub fn inherit_registers(rs: &Vec<Register>) -> (c: Vec<Register>)
    ensures
        c@.map_values(|r: Register| r@) == Seq::new(
            rs@.len(),
            |j: int| inherit_register_spec(rs@[j]@),
        ),
{
    let mut out: Vec<Register> = Vec::new();
    let mut i: usize = 0;
    while i < rs.len()
        invariant
            i <= rs@.len(),
            out@.len() == i,
            forall|j: int| 0 <= j < i ==> #[trigger] out@[j]@ == inherit_register_spec(rs@[j]@),
        decreases rs@.len() - i,
    {
        out.push(inherit_register(&rs[i]));
        i = i + 1;
    }
    proof {
        assert(out@.map_values(|r: Register| r@) =~= Seq::new(
            rs@.len(),
            |j: int| inherit_register_spec(rs@[j]@),
        ));
    }
    out
}

/// An exact copy of a peripheral list.
pub fn clone_peripherals(ps: &Vec<Peripheral>) -> (c: Vec<Peripheral>)
    ensures
        c@.map_values(|p: Peripheral| p@) == ps@.map_values(|p: Peripheral| p@),
{
    let mut out: Vec<Peripheral> = Vec::new();
    let mut i: usize = 0;
    while i < ps.len()
        invariant
            i <= ps@.len(),
            out@.len() == i,
            forall|j: int| 0 <= j < i ==> #[trigger] out@[j]@ == ps@[j]@,
        decreases ps@.len() - i,
    {
        out.push(clone_peripheral(&ps[i]));
        i = i + 1;
    }
    proof {
        assert(out@.map_values(|p: Peripheral| p@) =~= ps@.map_values(|p: Peripheral| p@));
    }
    out
}

/// The first index in `ps` whose peripheral carries `name`.
pub fn find_in(ps: &Vec<Peripheral>, name: &String) -> (r: Option<usize>)
    ensures
        match r {
            Some(i) => i < ps@.len() && find_from(ps@.map_values(|p: Peripheral| p@), name@, 0)
                == Some(i as int),
            None => find_from(ps@.map_values(|p: Peripheral| p@), name@, 0) is None,
        },
{
    let ghost view = ps@.map_values(|p: Peripheral| p@);
    let mut i: usize = 0;
    while i < ps.len()
        invariant
            i <= ps@.len(),
            view == ps@.map_values(|p: Peripheral| p@),
            find_from(view, name@, 0) == find_from(view, name@, i as int),
        decreases ps@.len() - i,
    {
        if ps[i].name == *name {
            return Some(i);
        }
        i = i + 1;
    }
    None
}

impl Device {
    /// Resolve every inheritance relationship and push register access
    /// modes down to fields, as the generator requires before emitting
    /// code.
    ///
    /// The description must name only peripherals that exist as bases,
    /// and every peripheral must end up with registers; the generator
    /// aborts at startup on descriptions that do not, so those are
    /// excluded here.
    pub fn normalize(&mut self)
        requires
            forall|i: int|
                0 <= i < old(self)@.len() ==> ((#[trigger] old(self)@[i]).derived_from matches Some(
                    df,
                ) ==> find_from(old(self)@, df, 0) is Some),
            forall|i: int|
                0 <= i < old(self)@.len() ==> (#[trigger] resolved_spec(
                    old(self)@,
                    i,
                )).registers is Some,
        ensures
            final(self)@ == Seq::new(
                old(self)@.len(),
                |i: int| inherit_peripheral_spec(resolved_spec(old(self)@, i)),
            ),
    {
        let ghost orig = old(self)@;
        // Follow every inheritance relationship against a snapshot of the
        // list as it was handed in.
        let snapshot = clone_peripherals(&self.peripherals);
        let n = self.peripherals.len();
        let mut i: usize = 0;
        while i < n
            invariant
                i <= n,
                n == self.peripherals@.len(),
                orig.len() == n,
                snapshot@.map_values(|p: Peripheral| p@) == orig,
                forall|j: int| i <= j < n ==> (#[trigger] self.peripherals@[j])@ == orig[j],
                forall|j: int|
                    0 <= j < i ==> (#[trigger] self.peripherals@[j])@ == resolved_spec(orig, j),
            decreases n - i,
        {
            let df_opt = match &self.peripherals[i].derived_from {
                Some(df) => Some(df.clone()),
                None => None,
            };
            if let Some(df) = df_opt {
                match find_in(&snapshot, &df) {
                    Some(b) => {
                        if self.peripherals[i].base_address.is_none() {
                            self.peripherals[i].base_address = snapshot[b].base_address;
                        }
                        if self.peripherals[i].registers.is_none() {
                            let regs = match &snapshot[b].registers {
                                Some(rs) => Some(clone_registers(rs)),
                                None => None,
                            };
                            self.peripherals[i].registers = regs;
                        }
                        proof {
                            assert(self.peripherals@[i as int]@ == rebase_spec(
                                orig[i as int],
                                orig[b as int],
                            ));
                        }
                    },
                    None => {},
                }
            }
            i = i + 1;
        }
        // Push register access modes down to their fields.
        let mut i: usize = 0;
        while i < n
            invariant
                i <= n,
                n == self.peripherals@.len(),
                orig.len() == n,
                forall|j: int|
                    i <= j < n ==> (#[trigger] self.peripherals@[j])@ == resolved_spec(orig, j),
                forall|j: int|
                    0 <= j < i ==> (#[trigger] self.peripherals@[j])@ == inherit_peripheral_spec(
                        resolved_spec(orig, j),
                    ),
                forall|j: int|
                    0 <= j < orig.len() ==> (#[trigger] resolved_spec(orig, j)).registers is Some,
            decreases n - i,
        {
            let ghost pv = resolved_spec(orig, i as int);
            proof {
                assert(self.peripherals@[i as int]@ == pv);
                assert(pv.registers is Some);
            }
            let new_regs = match &self.peripherals[i].registers {
                Some(rs) => inherit_registers(rs),
                None => {
                    proof {
                        assert(false);
                    }
                    Vec::new()
                },
            };
            self.peripherals[i].registers = Some(new_regs);
            proof {
                assert(self.peripherals@[i as int]@.registers.unwrap() =~= inherit_peripheral_spec(
                    pv,
                ).registers.unwrap());
                assert(self.peripherals@[i as int]@ == inherit_peripheral_spec(pv));
            }
            i = i + 1;
        }
        proof {
            assert(self@ =~= Seq::new(
                orig.len(),
                |i: int| inherit_peripheral_spec(resolved_spec(orig, i)),
            ));
        }
    }
}

/// What an SVD-to-Rust translation run is configured with.
pub struct Options {
    /// The path of the device description to translate.
    pub svd_file: String,
    /// The peripherals to translate; an empty list means all of them.
    pub only: Vec<String>,
}

/// A `Builder` collects the configuration of an SVD-to-Rust translation
/// run: the description file to read and which peripherals to keep.
pub struct Builder {
    /// The collected configuration.
    pub options: Options,
}

impl Default for Builder {
    /// A builder naming no file and keeping every peripheral.
    fn default() -> (b: Builder)
        ensures
            b.options.svd_file@ == Seq::<char>::empty(),
            b.options.only@ == Seq::<String>::empty(),
    {
        Builder { options: Options { svd_file: String::new(), only: Vec::new() } }
    }
}

impl Builder {
    /// Specify the SVD file to be translated.
    pub fn svd_file(self, svd_file: &str) -> (b: Builder)
        ensures
            b.options.svd_file@ == svd_file@,
            b.options.only == self.options.only,
    {
        let mut options = self.options;
        options.svd_file = String::from_str(svd_file);
        Builder { options }
    }

    /// Specify a peripheral to be translated.  If this method is never
    /// invoked, then all peripherals are translated.
    pub fn with_peripheral(self, peripheral: &str) -> (b: Builder)
        ensures
            b.options.svd_file == self.options.svd_file,
            b.options.only@.len() == self.options.only@.len() + 1,
            forall|i: int|
                0 <= i < self.options.only@.len() ==> #[trigger] b.options.only@[i]
                    == self.options.only@[i],
            b.options.only@[self.options.only@.len() as int]@ == peripheral@,
    {
        let mut options = self.options;
        options.only.push(String::from_str(peripheral));
        Builder { options }
    }
}

} // verus!
