use vstd::prelude::*;

verus! {

/// Layout parameters of the Pedersen hash builtin.
#[derive(Clone, Copy, Debug, PartialEq, Eq, Structural)]
pub struct PedersenInstanceDef {
    pub _ratio: u32,
    pub _repetitions: u32,
    pub _element_height: u32,
    pub _element_bits: u32,
    pub _n_inputs: u32,
}

impl PedersenInstanceDef {
    pub fn new(_ratio: u32, _repetitions: u32) -> (r: PedersenInstanceDef)
        ensures
            r == (PedersenInstanceDef {
                _ratio,
                _repetitions,
                _element_height: 256,
                _element_bits: 252,
                _n_inputs: 2,
            }),
    {
        PedersenInstanceDef { _ratio, _repetitions, _element_height: 256, _element_bits: 252, _n_inputs: 2 }
    }
}

impl Default for PedersenInstanceDef {
    fn default() -> (r: PedersenInstanceDef)
        ensures
            r == (PedersenInstanceDef {
                _ratio: 8,
                _repetitions: 4,
                _element_height: 256,
                _element_bits: 252,
                _n_inputs: 2,
            }),
    {
        PedersenInstanceDef::new(8, 4)
    }
}

/// Layout parameters of the range-check builtin.
#[derive(Clone, Copy, Debug, PartialEq, Eq, Structural)]
pub struct RangeCheckInstanceDef {
    pub _ratio: u32,
    pub _n_parts: u32,
}

impl RangeCheckInstanceDef {
    pub fn new(_ratio: u32, _n_parts: u32) -> (r: RangeCheckInstanceDef)
        ensures
            r == (RangeCheckInstanceDef { _ratio, _n_parts }),
    {
        RangeCheckInstanceDef { _ratio, _n_parts }
    }
}

impl Default for RangeCheckInstanceDef {
    fn default() -> (r: RangeCheckInstanceDef)
        ensures
            r == (RangeCheckInstanceDef { _ratio: 8, _n_parts: 8 }),
    {
        RangeCheckInstanceDef::new(8, 8)
    }
}

/// Layout parameters of the ECDSA signature-verification builtin.
#[derive(Clone, Copy, Debug, PartialEq, Eq, Structural)]
pub struct EcdsaInstanceDef {
    pub _ratio: u32,
    pub _repetitions: u32,
    pub _height: u32,
    pub _n_hash_bits: u32,
}

impl EcdsaInstanceDef {
    pub fn new(_ratio: u32) -> (r: EcdsaInstanceDef)
        ensures
            r == (EcdsaInstanceDef { _ratio, _repetitions: 1, _height: 256, _n_hash_bits: 251 }),
    {
        EcdsaInstanceDef { _ratio, _repetitions: 1, _height: 256, _n_hash_bits: 251 }
    }
}

impl Default for EcdsaInstanceDef {
    fn default() -> (r: EcdsaInstanceDef)
        ensures
            r == (EcdsaInstanceDef {
                _ratio: 512,
                _repetitions: 1,
                _height: 256,
                _n_hash_bits: 251,
            }),
    {
        EcdsaInstanceDef::new(512)
    }
}

/// Layout parameters of the bitwise builtin.
#[derive(Clone, Copy, Debug, PartialEq, Eq, Structural)]
pub struct BitwiseInstanceDef {
    pub _ratio: u32,
    pub _total_n_bits: u32,
}

impl BitwiseInstanceDef {
    pub fn new(_ratio: u32) -> (r: BitwiseInstanceDef)
        ensures
            r == (BitwiseInstanceDef { _ratio, _total_n_bits: 251 }),
    {
        BitwiseInstanceDef { _ratio, _total_n_bits: 251 }
    }
}

impl Default for BitwiseInstanceDef {
    fn default() -> (r: BitwiseInstanceDef)
        ensures
            r == (BitwiseInstanceDef { _ratio: 256, _total_n_bits: 251 }),
    {
        BitwiseInstanceDef::new(256)
    }
}

/// Layout parameters of the elliptic-curve operation builtin.
#[derive(Clone, Copy, Debug, PartialEq, Eq, Structural)]
pub struct EcOpInstanceDef {
    pub _ratio: u32,
    pub _scalar_height: u32,
    pub _scalar_bits: u32,
}

impl EcOpInstanceDef {
    pub fn new(_ratio: u32) -> (r: EcOpInstanceDef)
        ensures
            r == (EcOpInstanceDef { _ratio, _scalar_height: 256, _scalar_bits: 252 }),
    {
        EcOpInstanceDef { _ratio, _scalar_height: 256, _scalar_bits: 252 }
    }
}

impl Default for EcOpInstanceDef {
    fn default() -> (r: EcOpInstanceDef)
        ensures
            r == (EcOpInstanceDef { _ratio: 256, _scalar_height: 256, _scalar_bits: 252 }),
    {
        EcOpInstanceDef::new(256)
    }
}

/// Layout parameters of the Poseidon hash builtin.
#[derive(Clone, Copy, Debug, PartialEq, Eq, Structural)]
pub struct PoseidonInstanceDef {
    pub _ratio: u32,
}

impl PoseidonInstanceDef {
    pub fn new(_ratio: u32) -> (r: PoseidonInstanceDef)
        ensures
            r == (PoseidonInstanceDef { _ratio }),
    {
        PoseidonInstanceDef { _ratio }
    }
}

impl Default for PoseidonInstanceDef {
    fn default() -> (r: PoseidonInstanceDef)
        ensures
            r == (PoseidonInstanceDef { _ratio: 32 }),
    {
        PoseidonInstanceDef::new(32)
    }
}

/// Layout parameters of the Keccak builtin: steps per instance, the bit width
/// of each packed input lane, and how many instances share one component.
#[derive(Clone, Debug, PartialEq, Eq)]
pub struct KeccakInstanceDef {
    pub _ratio: u32,
    pub _state_rep: Vec<u32>,
    pub _instance_per_component: u32,
}

impl KeccakInstanceDef {
    pub fn new(_ratio: u32, _state_rep: Vec<u32>) -> (r: KeccakInstanceDef)
        ensures
            r._ratio == _ratio,
            r._state_rep == _state_rep,
            r._instance_per_component == 16,
    {
        KeccakInstanceDef { _ratio, _state_rep, _instance_per_component: 16 }
    }

    /// Total cells of one instance: an output lane for every input lane.
    pub fn cells_per_builtin(&self) -> (r: u32)
        requires
            self._state_rep@.len() <= 0x7FFFFFFF,
        ensures
            r == 2 * self._state_rep@.len(),
    {
        2 * (self._state_rep.len() as u32)
    }
}

impl Default for KeccakInstanceDef {
    fn default() -> (r: KeccakInstanceDef)
        ensures
            r._ratio == 2048,
            r._state_rep@ == Seq::new(8, |i: int| 200u32),
            r._instance_per_component == 16,
    {
        KeccakInstanceDef::new(2048, vec![200; 8])
    }
}

/// The set of builtins a layout enables, with each one's parameters.
#[derive(Debug, PartialEq, Eq)]
pub struct BuiltinsInstanceDef {
    pub output: bool,
    pub pedersen: Option<PedersenInstanceDef>,
    pub range_check: Option<RangeCheckInstanceDef>,
    pub ecdsa: Option<EcdsaInstanceDef>,
    pub bitwise: Option<BitwiseInstanceDef>,
    pub ec_op: Option<EcOpInstanceDef>,
    pub keccak: Option<KeccakInstanceDef>,
    pub poseidon: Option<PoseidonInstanceDef>,
}

impl BuiltinsInstanceDef {
    /// The layout with no builtins at all.
    pub fn plain() -> (r: BuiltinsInstanceDef)
        ensures
            r.output == false,
            r.pedersen is None,
            r.range_check is None,
            r.ecdsa is None,
            r.bitwise is None,
            r.ec_op is None,
            r.keccak is None,
            r.poseidon is None,
    {
        BuiltinsInstanceDef {
            output: false,
            pedersen: None,
            range_check: None,
            ecdsa: None,
            bitwise: None,
            ec_op: None,
            keccak: None,
            poseidon: None,
        }
    }

    pub fn small() -> (r: BuiltinsInstanceDef)
        ensures
            r.output == true,
            r.pedersen == Some((PedersenInstanceDef { _ratio: 8, _repetitions: 4, _element_height: 256, _element_bits: 252, _n_inputs: 2 })),
            r.range_check == Some((RangeCheckInstanceDef { _ratio: 8, _n_parts: 8 })),
            r.ecdsa == Some((EcdsaInstanceDef { _ratio: 512, _repetitions: 1, _height: 256, _n_hash_bits: 251 })),
            r.bitwise is None,
            r.ec_op is None,
            r.keccak is None,
            r.poseidon is None,
    {
        BuiltinsInstanceDef {
            output: true,
            pedersen: Some(PedersenInstanceDef::default()),
            range_check: Some(RangeCheckInstanceDef::default()),
            ecdsa: Some(EcdsaInstanceDef::default()),
            bitwise: None,
            ec_op: None,
            keccak: None,
            poseidon: None,
        }
    }

    pub fn dex() -> (r: BuiltinsInstanceDef)
        ensures
            r.output == true,
            r.pedersen == Some((PedersenInstanceDef { _ratio: 8, _repetitions: 4, _element_height: 256, _element_bits: 252, _n_inputs: 2 })),
            r.range_check == Some((RangeCheckInstanceDef { _ratio: 8, _n_parts: 8 })),
            r.ecdsa == Some((EcdsaInstanceDef { _ratio: 512, _repetitions: 1, _height: 256, _n_hash_bits: 251 })),
            r.bitwise is None,
            r.ec_op is None,
            r.keccak is None,
            r.poseidon is None,
    {
        BuiltinsInstanceDef {
            output: true,
            pedersen: Some(PedersenInstanceDef::default()),
            range_check: Some(RangeCheckInstanceDef::default()),
            ecdsa: Some(EcdsaInstanceDef::default()),
            bitwise: None,
            ec_op: None,
            keccak: None,
            poseidon: None,
        }
    }

    pub fn perpetual_with_bitwise() -> (r: BuiltinsInstanceDef)
        ensures
            r.output == true,
            r.pedersen == Some((PedersenInstanceDef { _ratio: 32, _repetitions: 1, _element_height: 256, _element_bits: 252, _n_inputs: 2 })),
            r.range_check == Some((RangeCheckInstanceDef { _ratio: 16, _n_parts: 8 })),
            r.ecdsa == Some((EcdsaInstanceDef { _ratio: 2048, _repetitions: 1, _height: 256, _n_hash_bits: 251 })),
            r.bitwise == Some((BitwiseInstanceDef { _ratio: 64, _total_n_bits: 251 })),
            r.ec_op == Some((EcOpInstanceDef { _ratio: 1024, _scalar_height: 256, _scalar_bits: 252 })),
            r.keccak is None,
            r.poseidon is None,
    {
        BuiltinsInstanceDef {
            output: true,
            pedersen: Some(PedersenInstanceDef::new(32, 1)),
            range_check: Some(RangeCheckInstanceDef::new(16, 8)),
            ecdsa: Some(EcdsaInstanceDef::new(2048)),
            bitwise: Some(BitwiseInstanceDef::new(64)),
            ec_op: Some(EcOpInstanceDef::new(1024)),
            keccak: None,
            poseidon: None,
        }
    }

    pub fn bitwise() -> (r: BuiltinsInstanceDef)
        ensures
            r.output == true,
            r.pedersen == Some((PedersenInstanceDef { _ratio: 256, _repetitions: 1, _element_height: 256, _element_bits: 252, _n_inputs: 2 })),
            r.range_check == Some((RangeCheckInstanceDef { _ratio: 8, _n_parts: 8 })),
            r.ecdsa == Some((EcdsaInstanceDef { _ratio: 1024, _repetitions: 1, _height: 256, _n_hash_bits: 251 })),
            r.bitwise == Some((BitwiseInstanceDef { _ratio: 8, _total_n_bits: 251 })),
            r.ec_op is None,
            r.keccak is None,
            r.poseidon is None,
    {
        BuiltinsInstanceDef {
            output: true,
            pedersen: Some(PedersenInstanceDef::new(256, 1)),
            range_check: Some(RangeCheckInstanceDef::default()),
            ecdsa: Some(EcdsaInstanceDef::new(1024)),
            bitwise: Some(BitwiseInstanceDef::new(8)),
            ec_op: None,
            keccak: None,
            poseidon: None,
        }
    }

    pub fn recursive() -> (r: BuiltinsInstanceDef)
        ensures
            r.output == true,
            r.pedersen == Some((PedersenInstanceDef { _ratio: 256, _repetitions: 1, _element_height: 256, _element_bits: 252, _n_inputs: 2 })),
            r.range_check == Some((RangeCheckInstanceDef { _ratio: 8, _n_parts: 8 })),
            r.ecdsa is None,
            r.bitwise == Some((BitwiseInstanceDef { _ratio: 16, _total_n_bits: 251 })),
            r.ec_op is None,
            r.keccak matches Some(k) && k._ratio == 2048 && k._state_rep@ == Seq::new(
                8,
                |i: int| 200u32,
            ) && k._instance_per_component == 16,
            r.poseidon is None,
    {
        BuiltinsInstanceDef {
            output: true,
            pedersen: Some(PedersenInstanceDef::new(256, 1)),
            range_check: Some(RangeCheckInstanceDef::default()),
            ecdsa: None,
            bitwise: Some(BitwiseInstanceDef::new(16)),
            ec_op: None,
            keccak: Some(KeccakInstanceDef::new(2048, vec![200; 8])),
            poseidon: None,
        }
    }

    pub fn all() -> (r: BuiltinsInstanceDef)
        ensures
            r.output == true,
            r.pedersen == Some((PedersenInstanceDef { _ratio: 8, _repetitions: 4, _element_height: 256, _element_bits: 252, _n_inputs: 2 })),
            r.range_check == Some((RangeCheckInstanceDef { _ratio: 8, _n_parts: 8 })),
            r.ecdsa == Some((EcdsaInstanceDef { _ratio: 512, _repetitions: 1, _height: 256, _n_hash_bits: 251 })),
            r.bitwise == Some((BitwiseInstanceDef { _ratio: 256, _total_n_bits: 251 })),
            r.ec_op == Some((EcOpInstanceDef { _ratio: 256, _scalar_height: 256, _scalar_bits: 252 })),
            r.keccak is None,
            r.poseidon == Some((PoseidonInstanceDef { _ratio: 32 })),
    {
        BuiltinsInstanceDef {
            output: true,
            pedersen: Some(PedersenInstanceDef::default()),
            range_check: Some(RangeCheckInstanceDef::default()),
            ecdsa: Some(EcdsaInstanceDef::default()),
            bitwise: Some(BitwiseInstanceDef::default()),
            ec_op: Some(EcOpInstanceDef::default()),
            keccak: None,
            poseidon: Some(PoseidonInstanceDef::default()),
        }
    }
}

} // verus!
