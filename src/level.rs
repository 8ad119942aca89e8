use vstd::prelude::*;

verus! {

/// The bits of every real level together.
pub const ALL_BITS: u8 = 15;

/// A log level. Each real level owns one bit of a filter mask; `All` is the
/// four of them together and `Off` is the empty mask.
#[derive(Debug, Clone, Copy, PartialEq, Eq, Structural)]
pub enum LogLevel {
    Off,
    Debug,
    Warn,
    Error,
    Info,
    All,
}

impl LogLevel {
    /// The mask bits that stand for this level.
    pub open spec fn spec_bits(self) -> u8 {
        match self {
            LogLevel::Off => 0,
            LogLevel::Debug => 1,
            LogLevel::Warn => 2,
            LogLevel::Error => 4,
            LogLevel::Info => 8,
            LogLevel::All => 15,
        }
    }

    /// One of the four levels that a record can carry.
    pub open spec fn is_record_level(self) -> bool {
        match self {
            LogLevel::Debug | LogLevel::Warn | LogLevel::Error | LogLevel::Info => true,
            _ => false,
        }
    }

    #[verifier::when_used_as_spec(spec_bits)]
    pub fn bits(self) -> (r: u8)
        ensures
            r == self.spec_bits(),
    {
        match self {
            LogLevel::Off => 0,
            LogLevel::Debug => 1,
            LogLevel::Warn => 2,
            LogLevel::Error => 4,
            LogLevel::Info => 8,
            LogLevel::All => 15,
        }
    }
}

/// A mask holds no bit outside the four real levels.
pub open spec fn mask_wf(m: u8) -> bool {
    m == m & ALL_BITS
}

/// The console admits a record of level `l` under mask `m`.
pub open spec fn admits(m: u8, l: LogLevel) -> bool {
    m & l.spec_bits() != 0
}

/// The mask with the bits of `l` added.
pub open spec fn mask_with(m: u8, l: LogLevel) -> u8 {
    m | l.spec_bits()
}

/// The mask with the bits of `l` taken out.
pub open spec fn mask_without(m: u8, l: LogLevel) -> u8 {
    m & !l.spec_bits()
}

/// The bits of a level lie within those of `All`.
pub proof fn lemma_bits_within_all(l: LogLevel)
    ensures
        l.spec_bits() == l.spec_bits() & ALL_BITS,
{
    match l {
        LogLevel::Off => assert(0u8 == 0u8 & 15u8) by (bit_vector),
        LogLevel::Debug => assert(1u8 == 1u8 & 15u8) by (bit_vector),
        LogLevel::Warn => assert(2u8 == 2u8 & 15u8) by (bit_vector),
        LogLevel::Error => assert(4u8 == 4u8 & 15u8) by (bit_vector),
        LogLevel::Info => assert(8u8 == 8u8 & 15u8) by (bit_vector),
        LogLevel::All => assert(15u8 == 15u8 & 15u8) by (bit_vector),
    }
}

/// Keeps of `m` only the bits of the real levels.
pub fn clamp_mask(m: u8) -> (r: u8)
    ensures
        r == m & ALL_BITS,
        mask_wf(r),
        forall|l: LogLevel| #[trigger] admits(r, l) == admits(m, l),
{
    let r = m & ALL_BITS;
    assert(r == r & 15u8) by (bit_vector)
        requires
            r == m & 15u8,
    ;
    assert forall|l: LogLevel| #[trigger] admits(r, l) == admits(m, l) by {
        let b = l.spec_bits();
        lemma_bits_within_all(l);
        assert((r & b != 0) == (m & b != 0)) by (bit_vector)
            requires
                r == m & 15u8,
                b == b & 15u8,
        ;
    }
    r
}

/// Whether the console admits a record of level `l` under mask `m`.
pub fn is_admitted(m: u8, l: LogLevel) -> (r: bool)
    ensures
        r == admits(m, l),
{
    m & l.bits() != 0
}


/// The console filter: once the mask is set to `m` (bits outside the four
/// levels dropped), a record of level `l` reaches the console exactly when
/// `m & l` is not zero.
pub proof fn lemma_filter_gate(m: u8, l: LogLevel)
    ensures
        admits(m & ALL_BITS, l) <==> m & l.spec_bits() != 0,
{
    let b = l.spec_bits();
    lemma_bits_within_all(l);
    assert(((m & 15u8) & b != 0) == (m & b != 0)) by (bit_vector)
        requires
            b == b & 15u8,
    ;
}

/// Adding a level's flag and then removing it gives back the mask one had,
/// wherever that flag was not already in the mask.
pub proof fn lemma_add_then_remove(m: u8, l: LogLevel)
    requires
        l.is_record_level(),
        !admits(m, l),
    ensures
        mask_without(mask_with(m, l), l) == m,
{
    let b = l.spec_bits();
    assert((m | b) & !b == m) by (bit_vector)
        requires
            m & b == 0,
    ;
}

/// Under the empty mask no level reaches the console.
pub proof fn lemma_empty_mask_silent(l: LogLevel)
    ensures
        !admits(0, l),
{
    let b = l.spec_bits();
    assert(0u8 & b == 0) by (bit_vector);
}

} // verus!
