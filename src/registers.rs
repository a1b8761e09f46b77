use vstd::prelude::*;

verus! {

/// The mathematical model of the register file: seven 8-bit registers and the
/// four named condition flags. The unused low nibble of the flags byte is
/// always zero, so these four booleans determine that byte completely.
pub struct RegView {
    pub a: u8,
    pub b: u8,
    pub c: u8,
    pub d: u8,
    pub e: u8,
    pub h: u8,
    pub l: u8,
    pub zf: bool,
    pub nf: bool,
    pub hf: bool,
    pub cf: bool,
}

/// The flags byte that a set of flags stands for (zero, subtract, half-carry,
/// carry in bits 7 to 4; bits 3 to 0 clear).
pub open spec fn flag_bits(r: RegView) -> int {
    (if r.zf { 0x80int } else { 0 }) + (if r.nf { 0x40int } else { 0 }) + (if r.hf {
        0x20int
    } else {
        0
    }) + (if r.cf { 0x10int } else { 0 })
}

pub open spec fn pair_value(hi: u8, lo: u8) -> u16 {
    (hi as int * 256 + lo as int) as u16
}

pub open spec fn high_byte(v: u16) -> u8 {
    (v as int / 256) as u8
}

pub open spec fn low_byte(v: u16) -> u8 {
    (v as int % 256) as u8
}

pub struct Registers {
    pub a: u8,
    /// The flags byte; write it through the flag setters, which keep its low
    /// nibble clear.
    pub f: u8,
    pub b: u8,
    pub c: u8,
    pub d: u8,
    pub e: u8,
    pub h: u8,
    pub l: u8,
}

impl View for Registers {
    type V = RegView;

    open spec fn view(&self) -> RegView {
        RegView {
            a: self.a,
            b: self.b,
            c: self.c,
            d: self.d,
            e: self.e,
            h: self.h,
            l: self.l,
            zf: self.flags_byte() & 0x80 != 0,
            nf: self.flags_byte() & 0x40 != 0,
            hf: self.flags_byte() & 0x20 != 0,
            cf: self.flags_byte() & 0x10 != 0,
        }
    }
}

impl Default for Registers {
    fn default() -> (r: Registers)
        ensures
            r.wf(),
            r@ == (RegView {
                a: 0,
                b: 0,
                c: 0,
                d: 0,
                e: 0,
                h: 0,
                l: 0,
                zf: false,
                nf: false,
                hf: false,
                cf: false,
            }),
    {
        let r = Registers { a: 0, f: 0, b: 0, c: 0, d: 0, e: 0, h: 0, l: 0 };
        assert(0u8 & 0x80 == 0 && 0u8 & 0x40 == 0 && 0u8 & 0x20 == 0 && 0u8 & 0x10 == 0 && 0u8
            & 0x0F == 0) by (bit_vector);
        r
    }
}

impl Registers {
    /// The raw flags byte.
    pub open spec fn flags_byte(&self) -> u8 {
        self.f
    }

    /// The low nibble of the flags byte reads as zero.
    pub open spec fn wf(&self) -> bool {
        self.f & 0x0F == 0
    }

    proof fn lemma_flags_byte(&self)
        requires
            self.wf(),
        ensures
            self.f as int == flag_bits(self@),
    {
        let f = self.f;
        assert(f & 0x0F == 0 ==> f == (f & 0x80) + (f & 0x40) + (f & 0x20) + (f & 0x10))
            by (bit_vector);
        assert((f & 0x80 == 0 || f & 0x80 == 0x80) && (f & 0x40 == 0 || f & 0x40 == 0x40) && (f
            & 0x20 == 0 || f & 0x20 == 0x20) && (f & 0x10 == 0 || f & 0x10 == 0x10))
            by (bit_vector);
    }

    pub fn set_af(&mut self, value: u16)
        ensures
            final(self).wf(),
            final(self)@ == (RegView {
                a: high_byte(value),
                zf: low_byte(value) & 0x80 != 0,
                nf: low_byte(value) & 0x40 != 0,
                hf: low_byte(value) & 0x20 != 0,
                cf: low_byte(value) & 0x10 != 0,
                ..old(self)@
            }),
    {
        self.a = get_upper_byte(value);
        let lo = get_lower_byte(value);
        self.f = lo & 0xF0;
        assert((lo & 0xF0) & 0x0F == 0 && (lo & 0xF0) & 0x80 == lo & 0x80 && (lo & 0xF0) & 0x40
            == lo & 0x40 && (lo & 0xF0) & 0x20 == lo & 0x20 && (lo & 0xF0) & 0x10 == lo & 0x10)
            by (bit_vector);
    }

    pub fn get_af(&self) -> (r: u16)
        requires
            self.wf(),
        ensures
            r as int == self.a as int * 256 + flag_bits(self@),
    {
        proof {
            self.lemma_flags_byte();
        }
        (self.a as u16) * 256 + self.f as u16
    }

    pub fn set_bc(&mut self, value: u16)
        requires
            old(self).wf(),
        ensures
            final(self).wf(),
            final(self)@ == (RegView { b: high_byte(value), c: low_byte(value), ..old(self)@ }),
    {
        self.b = get_upper_byte(value);
        self.c = get_lower_byte(value);
    }

    pub fn get_bc(&self) -> (r: u16)
        ensures
            r == pair_value(self.b, self.c),
    {
        (self.b as u16) * 256 + self.c as u16
    }

    pub fn set_de(&mut self, value: u16)
        requires
            old(self).wf(),
        ensures
            final(self).wf(),
            final(self)@ == (RegView { d: high_byte(value), e: low_byte(value), ..old(self)@ }),
    {
        self.d = get_upper_byte(value);
        self.e = get_lower_byte(value);
    }

    pub fn get_de(&self) -> (r: u16)
        ensures
            r == pair_value(self.d, self.e),
    {
        (self.d as u16) * 256 + self.e as u16
    }

    pub fn set_hl(&mut self, value: u16)
        requires
            old(self).wf(),
        ensures
            final(self).wf(),
            final(self)@ == (RegView { h: high_byte(value), l: low_byte(value), ..old(self)@ }),
    {
        self.h = get_upper_byte(value);
        self.l = get_lower_byte(value);
    }

    pub fn get_hl(&self) -> (r: u16)
        ensures
            r == pair_value(self.h, self.l),
    {
        (self.h as u16) * 256 + self.l as u16
    }

    pub fn set_flag_z(&mut self, value: bool)
        requires
            old(self).wf(),
        ensures
            final(self).wf(),
            final(self)@ == (RegView { zf: value, ..old(self)@ }),
    {
        let f = self.f;
        self.f = set_flag_with_expression(f, value, 0x80);
        assert((f | 0x80) & 0x80 != 0 && (f | 0x80) & 0x40 == f & 0x40 && (f | 0x80) & 0x20 == f
            & 0x20 && (f | 0x80) & 0x10 == f & 0x10 && (f & (0x80u8 ^ 0xFFu8)) & 0x80 == 0 && (f & (0x80u8 ^ 0xFFu8)) & 0x40
            == f & 0x40 && (f & (0x80u8 ^ 0xFFu8)) & 0x20 == f & 0x20 && (f & (0x80u8 ^ 0xFFu8)) & 0x10 == f & 0x10 && (f
            & 0x0F == 0 ==> (f | 0x80) & 0x0F == 0 && (f & (0x80u8 ^ 0xFFu8)) & 0x0F == 0)) by (bit_vector);
    }

    pub fn get_flag_z(&self) -> (r: bool)
        ensures
            r == self@.zf,
    {
        self.f & 0x80 != 0
    }

    pub fn set_flag_n(&mut self, value: bool)
        requires
            old(self).wf(),
        ensures
            final(self).wf(),
            final(self)@ == (RegView { nf: value, ..old(self)@ }),
    {
        let f = self.f;
        self.f = set_flag_with_expression(f, value, 0x40);
        assert((f | 0x40) & 0x40 != 0 && (f | 0x40) & 0x80 == f & 0x80 && (f | 0x40) & 0x20 == f
            & 0x20 && (f | 0x40) & 0x10 == f & 0x10 && (f & (0x40u8 ^ 0xFFu8)) & 0x40 == 0 && (f & (0x40u8 ^ 0xFFu8)) & 0x80
            == f & 0x80 && (f & (0x40u8 ^ 0xFFu8)) & 0x20 == f & 0x20 && (f & (0x40u8 ^ 0xFFu8)) & 0x10 == f & 0x10 && (f
            & 0x0F == 0 ==> (f | 0x40) & 0x0F == 0 && (f & (0x40u8 ^ 0xFFu8)) & 0x0F == 0)) by (bit_vector);
    }

    pub fn get_flag_n(&self) -> (r: bool)
        ensures
            r == self@.nf,
    {
        self.f & 0x40 != 0
    }

    pub fn set_flag_h(&mut self, value: bool)
        requires
            old(self).wf(),
        ensures
            final(self).wf(),
            final(self)@ == (RegView { hf: value, ..old(self)@ }),
    {
        let f = self.f;
        self.f = set_flag_with_expression(f, value, 0x20);
        assert((f | 0x20) & 0x20 != 0 && (f | 0x20) & 0x80 == f & 0x80 && (f | 0x20) & 0x40 == f
            & 0x40 && (f | 0x20) & 0x10 == f & 0x10 && (f & (0x20u8 ^ 0xFFu8)) & 0x20 == 0 && (f & (0x20u8 ^ 0xFFu8)) & 0x80
            == f & 0x80 && (f & (0x20u8 ^ 0xFFu8)) & 0x40 == f & 0x40 && (f & (0x20u8 ^ 0xFFu8)) & 0x10 == f & 0x10 && (f
            & 0x0F == 0 ==> (f | 0x20) & 0x0F == 0 && (f & (0x20u8 ^ 0xFFu8)) & 0x0F == 0)) by (bit_vector);
    }

    pub fn get_flag_h(&self) -> (r: bool)
        ensures
            r == self@.hf,
    {
        self.f & 0x20 != 0
    }

    pub fn set_flag_c(&mut self, value: bool)
        requires
            old(self).wf(),
        ensures
            final(self).wf(),
            final(self)@ == (RegView { cf: value, ..old(self)@ }),
    {
        let f = self.f;
        self.f = set_flag_with_expression(f, value, 0x10);
        assert((f | 0x10) & 0x10 != 0 && (f | 0x10) & 0x80 == f & 0x80 && (f | 0x10) & 0x40 == f
            & 0x40 && (f | 0x10) & 0x20 == f & 0x20 && (f & (0x10u8 ^ 0xFFu8)) & 0x10 == 0 && (f & (0x10u8 ^ 0xFFu8)) & 0x80
            == f & 0x80 && (f & (0x10u8 ^ 0xFFu8)) & 0x40 == f & 0x40 && (f & (0x10u8 ^ 0xFFu8)) & 0x20 == f & 0x20 && (f
            & 0x0F == 0 ==> (f | 0x10) & 0x0F == 0 && (f & (0x10u8 ^ 0xFFu8)) & 0x0F == 0)) by (bit_vector);
    }

    pub fn get_flag_c(&self) -> (r: bool)
        ensures
            r == self@.cf,
    {
        self.f & 0x10 != 0
    }

    /// Sets all four flags at once.
    pub fn set_flags(&mut self, z: bool, n: bool, h: bool, c: bool)
        requires
            old(self).wf(),
        ensures
            final(self).wf(),
            final(self)@ == (RegView { zf: z, nf: n, hf: h, cf: c, ..old(self)@ }),
    {
        self.set_flag_z(z);
        self.set_flag_n(n);
        self.set_flag_h(h);
        self.set_flag_c(c);
    }
}

fn get_upper_byte(value: u16) -> (r: u8)
    ensures
        r == high_byte(value),
{
    (value / 256) as u8
}

fn get_lower_byte(value: u16) -> (r: u8)
    ensures
        r == low_byte(value),
{
    (value % 256) as u8
}

fn set_flag_with_expression(flags: u8, value: bool, flag_id_exp: u8) -> (r: u8)
    ensures
        r == if value {
            flags | flag_id_exp
        } else {
            flags & invert_bits(flag_id_exp)
        },
{
    if value {
        flags | flag_id_exp
    } else {
        flags & invert_bytes(flag_id_exp)
    }
}

pub open spec fn invert_bits(v: u8) -> u8 {
    v ^ 0xFF
}

fn invert_bytes(value: u8) -> (r: u8)
    ensures
        r == invert_bits(value),
{
    value ^ 0xFF
}

} // verus!
