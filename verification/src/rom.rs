//! Program images.

use crate::bytes::{copy_bytes, overlay};
use crate::error::Chip8Error;
use vstd::prelude::*;

verus! {

/// Number of bytes between the program start and the end of memory: the
/// size of the largest program.
pub const ROM_SIZE: usize = 3584;

/// A program image, padded with zero bytes to the full size of program
/// space.
#[derive(Debug, PartialEq, Eq)]
pub struct ROM {
    /// The bytes that go to memory from the program start to its end.
    pub memory: [u8; ROM_SIZE],
}

impl ROM {
    /// What a ROM made from `image` holds: the image, then zero bytes.
    pub open spec fn padded(image: Seq<u8>) -> Seq<u8> {
        overlay(Seq::new(3584, |i: int| 0u8), 0, image, 0, image.len() as int)
    }

    /// Makes a ROM from the bytes of a program image. Fails with
    /// `ImageTooLarge` if there are more than 3584 of them.
    pub fn new(image: &[u8]) -> (res: Result<ROM, Chip8Error>)
        ensures
            res is Err <==> image@.len() > 3584,
            res is Err ==> res->Err_0 == Chip8Error::ImageTooLarge,
            res is Ok ==> res->Ok_0.memory@ == ROM::padded(image@),
    {
        let len = image.len();
        if len > ROM_SIZE {
            return Err(Chip8Error::ImageTooLarge);
        }
        let mut buffer: [u8; ROM_SIZE] = [0; ROM_SIZE];
        assert(buffer@ =~= Seq::new(3584, |i: int| 0u8));
        copy_bytes(&mut buffer, 0, image, 0, len);
        Ok(ROM { memory: buffer })
    }
}

} // verus!
