//! A decoded view of a cartridge: the decode outcome at every ROM
//! offset, as a disassembly front-end consumes it.

use vstd::prelude::*;

use crate::cartridge::Cartridge;
use crate::instruction::{DecodeError, Instruction};

verus! {

pub struct CartridgeData {
    pub cartridge: Cartridge,
    pub instructions: Vec<Result<Instruction, DecodeError>>,
}

impl CartridgeData {
    /// What decoding at offset `address` of the image yields.
    pub open spec fn spec_decoded_at(data: Seq<u8>, address: int) -> Result<
        Instruction,
        DecodeError,
    > {
        match Instruction::spec_decode(address as u16, data[address], data[address + 1]) {
            Some(instruction) => Ok(instruction),
            None => Err(DecodeError { address: address as u16, opcode: data[address] }),
        }
    }

    /// Decode every offset of the image that still has a following byte.
    pub fn read_instructions(cartridge: &Cartridge) -> (result: Vec<
        Result<Instruction, DecodeError>,
    >)
        requires
            cartridge.wf(),
            cartridge.data@.len() <= 0x10000,
        ensures
            result@.len() == cartridge.data@.len() - 1,
            forall|j: int|
                0 <= j < result@.len() ==> result@[j] == CartridgeData::spec_decoded_at(
                    cartridge.data@,
                    j,
                ),
    {
        let mut instructions: Vec<Result<Instruction, DecodeError>> = Vec::new();
        let size = cartridge.size();
        let mut address: usize = 0;
        while address + 1 < size
            invariant
                cartridge.wf(),
                size == cartridge.data@.len(),
                size <= 0x10000,
                address + 1 <= size,
                instructions@.len() == address,
                forall|j: int|
                    0 <= j < address ==> instructions@[j] == CartridgeData::spec_decoded_at(
                        cartridge.data@,
                        j,
                    ),
            decreases size - address,
        {
            instructions.push(Instruction::create(address as u16, &cartridge.data));
            address = address + 1;
        }
        instructions
    }

    pub fn from_cartridge(cartridge: &Cartridge) -> (result: CartridgeData)
        requires
            cartridge.wf(),
            cartridge.data@.len() <= 0x10000,
        ensures
            result.cartridge.data@ == cartridge.data@,
            result.instructions@.len() == cartridge.data@.len() - 1,
            forall|j: int|
                0 <= j < result.instructions@.len() ==> result.instructions@[j]
                    == CartridgeData::spec_decoded_at(cartridge.data@, j),
    {
        let instructions = CartridgeData::read_instructions(cartridge);
        let cartridge = Cartridge { data: clone_bytes(&cartridge.data) };
        CartridgeData { cartridge, instructions }
    }
}

fn clone_bytes(data: &Vec<u8>) -> (result: Vec<u8>)
    ensures
        result@ == data@,
{
    let mut result: Vec<u8> = Vec::new();
    let mut i: usize = 0;
    let n = data.len();
    while i < n
        invariant
            i <= n,
            n == data@.len(),
            result@.len() == i,
            forall|j: int| 0 <= j < i ==> result@[j] == data@[j],
        decreases n - i,
    {
        result.push(data[i]);
        i = i + 1;
    }
    proof {
        assert(result@ =~= data@);
    }
    result
}

} // verus!
