//! Decoding an opcode-tagged byte buffer into a closed enum of operations.
//!
//! Every operation is one opcode byte followed by a fixed-length payload;
//! the payload's length is validated before any field is sliced, so a short
//! buffer is rejected rather than indexed out of bounds. Bytes after the
//! payload are ignored.

use vstd::prelude::*;
use vstd::bytes::spec_u64_from_le_bytes;
use crate::bytes_util::{read_i64, read_u64, spec_i64_from_le_bytes, subrange_vec};
use crate::errors::CakeError;

verus! {

/// One decoded operation, payload fields already sliced and widened.
pub enum Instruction {
    /// Opcode 0: create the shop's state record, owner = caller.
    Initialize,
    /// Opcode 1: create a product at its derived address and advance the
    /// product counter. `name` is exactly 32 bytes, `description` exactly
    /// 128, both zero-padded by the submitting client.
    AddProduct { name: Vec<u8>, description: Vec<u8>, price: u64, stock: u64 },
    /// Opcode 2: raise a product's stock.
    AddStock { product_id: u64, amount: u64 },
    /// Opcode 3: replace a product's price.
    UpdatePrice { product_id: u64, new_price: u64 },
    /// Opcode 4: run the sell protocol.
    Sell { product_id: u64, quantity: u64 },
    /// Opcode 5: administrative backfill of one history record, bypassing
    /// the sell invariants.
    MigrateHistory { product_id: u64, quantity: u64, total: u64, buyer: Vec<u8>, timestamp: i64 },
    /// Opcode 6: zero the shop's state record and reclaim its storage.
    CloseShop,
    /// Opcode 7: zero a product record and reclaim its storage.
    CloseProduct { product_id: u64 },
}

/// Mathematical image of an `Instruction`.
pub enum InstructionView {
    Initialize,
    AddProduct { name: Seq<u8>, description: Seq<u8>, price: u64, stock: u64 },
    AddStock { product_id: u64, amount: u64 },
    UpdatePrice { product_id: u64, new_price: u64 },
    Sell { product_id: u64, quantity: u64 },
    MigrateHistory { product_id: u64, quantity: u64, total: u64, buyer: Seq<u8>, timestamp: i64 },
    CloseShop,
    CloseProduct { product_id: u64 },
}

impl View for Instruction {
    type V = InstructionView;

    open spec fn view(&self) -> InstructionView {
        match self {
            Instruction::Initialize => InstructionView::Initialize,
            Instruction::AddProduct { name, description, price, stock } => {
                InstructionView::AddProduct {
                    name: name@,
                    description: description@,
                    price: *price,
                    stock: *stock,
                }
            },
            Instruction::AddStock { product_id, amount } => {
                InstructionView::AddStock { product_id: *product_id, amount: *amount }
            },
            Instruction::UpdatePrice { product_id, new_price } => {
                InstructionView::UpdatePrice { product_id: *product_id, new_price: *new_price }
            },
            Instruction::Sell { product_id, quantity } => {
                InstructionView::Sell { product_id: *product_id, quantity: *quantity }
            },
            Instruction::MigrateHistory { product_id, quantity, total, buyer, timestamp } => {
                InstructionView::MigrateHistory {
                    product_id: *product_id,
                    quantity: *quantity,
                    total: *total,
                    buyer: buyer@,
                    timestamp: *timestamp,
                }
            },
            Instruction::CloseShop => InstructionView::CloseShop,
            Instruction::CloseProduct { product_id } => {
                InstructionView::CloseProduct { product_id: *product_id }
            },
        }
    }
}

/// What `parse` returns on every buffer: the decoded operation, or
/// `InvalidPayload` when the buffer is empty or shorter than the opcode's
/// fixed layout, or `UnknownOpcode` when the leading byte names no
/// operation.
pub open spec fn spec_parse(data: Seq<u8>) -> Result<InstructionView, CakeError> {
    if data.len() < 1 {
        Err(CakeError::InvalidPayload)
    } else if data[0] == 0 {
        Ok(InstructionView::Initialize)
    } else if data[0] == 1 {
        if data.len() < 177 {
            Err(CakeError::InvalidPayload)
        } else {
            Ok(
                InstructionView::AddProduct {
                    name: data.subrange(1, 33),
                    description: data.subrange(33, 161),
                    price: spec_u64_from_le_bytes(data.subrange(161, 169)),
                    stock: spec_u64_from_le_bytes(data.subrange(169, 177)),
                },
            )
        }
    } else if data[0] == 2 {
        if data.len() < 17 {
            Err(CakeError::InvalidPayload)
        } else {
            Ok(
                InstructionView::AddStock {
                    product_id: spec_u64_from_le_bytes(data.subrange(1, 9)),
                    amount: spec_u64_from_le_bytes(data.subrange(9, 17)),
                },
            )
        }
    } else if data[0] == 3 {
        if data.len() < 17 {
            Err(CakeError::InvalidPayload)
        } else {
            Ok(
                InstructionView::UpdatePrice {
                    product_id: spec_u64_from_le_bytes(data.subrange(1, 9)),
                    new_price: spec_u64_from_le_bytes(data.subrange(9, 17)),
                },
            )
        }
    } else if data[0] == 4 {
        if data.len() < 17 {
            Err(CakeError::InvalidPayload)
        } else {
            Ok(
                InstructionView::Sell {
                    product_id: spec_u64_from_le_bytes(data.subrange(1, 9)),
                    quantity: spec_u64_from_le_bytes(data.subrange(9, 17)),
                },
            )
        }
    } else if data[0] == 5 {
        if data.len() < 65 {
            Err(CakeError::InvalidPayload)
        } else {
            Ok(
                InstructionView::MigrateHistory {
                    product_id: spec_u64_from_le_bytes(data.subrange(1, 9)),
                    quantity: spec_u64_from_le_bytes(data.subrange(9, 17)),
                    total: spec_u64_from_le_bytes(data.subrange(17, 25)),
                    buyer: data.subrange(25, 57),
                    timestamp: spec_i64_from_le_bytes(data.subrange(57, 65)),
                },
            )
        }
    } else if data[0] == 6 {
        Ok(InstructionView::CloseShop)
    } else if data[0] == 7 {
        if data.len() < 9 {
            Err(CakeError::InvalidPayload)
        } else {
            Ok(
                InstructionView::CloseProduct {
                    product_id: spec_u64_from_le_bytes(data.subrange(1, 9)),
                },
            )
        }
    } else {
        Err(CakeError::UnknownOpcode)
    }
}

/// Decode an opcode-tagged buffer into an operation.
pub fn parse(data: &[u8]) -> (r: Result<Instruction, CakeError>)
    ensures
        match r {
            Ok(inst) => spec_parse(data@) == Ok::<InstructionView, CakeError>(inst@),
            Err(e) => spec_parse(data@) == Err::<InstructionView, CakeError>(e),
        },
{
    if data.len() < 1 {
        return Err(CakeError::InvalidPayload);
    }
    let opcode = data[0];
    if opcode == 0 {
        Ok(Instruction::Initialize)
    } else if opcode == 1 {
        if data.len() < 177 {
            return Err(CakeError::InvalidPayload);
        }
        let name = subrange_vec(data, 1, 33);
        let description = subrange_vec(data, 33, 161);
        let price = read_u64(data, 161);
        let stock = read_u64(data, 169);
        Ok(Instruction::AddProduct { name, description, price, stock })
    } else if opcode == 2 {
        if data.len() < 17 {
            return Err(CakeError::InvalidPayload);
        }
        let product_id = read_u64(data, 1);
        let amount = read_u64(data, 9);
        Ok(Instruction::AddStock { product_id, amount })
    } else if opcode == 3 {
        if data.len() < 17 {
            return Err(CakeError::InvalidPayload);
        }
        let product_id = read_u64(data, 1);
        let new_price = read_u64(data, 9);
        Ok(Instruction::UpdatePrice { product_id, new_price })
    } else if opcode == 4 {
        if data.len() < 17 {
            return Err(CakeError::InvalidPayload);
        }
        let product_id = read_u64(data, 1);
        let quantity = read_u64(data, 9);
        Ok(Instruction::Sell { product_id, quantity })
    } else if opcode == 5 {
        if data.len() < 65 {
            return Err(CakeError::InvalidPayload);
        }
        let product_id = read_u64(data, 1);
        let quantity = read_u64(data, 9);
        let total = read_u64(data, 17);
        let buyer = subrange_vec(data, 25, 57);
        let timestamp = read_i64(data, 57);
        Ok(Instruction::MigrateHistory { product_id, quantity, total, buyer, timestamp })
    } else if opcode == 6 {
        Ok(Instruction::CloseShop)
    } else if opcode == 7 {
        if data.len() < 9 {
            return Err(CakeError::InvalidPayload);
        }
        let product_id = read_u64(data, 1);
        Ok(Instruction::CloseProduct { product_id })
    } else {
        Err(CakeError::UnknownOpcode)
    }
}

} // verus!
