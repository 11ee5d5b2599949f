//! The output picture: a size, a name, and the bytes that were merged for it.

use crate::error::ImageDataErrors;
use vstd::prelude::*;

verus! {

/// Bytes that an RGBA picture of `width` by `height` pixels takes.
pub open spec fn buffer_capacity(width: u32, height: u32) -> nat {
    4 * (width as nat) * (height as nat)
}

/// A picture under construction: made for a size, filled once with bytes,
/// then handed to an encoder under its name.
#[derive(Debug)]
pub struct FloatingImage {
    width: u32,
    height: u32,
    data: Vec<u8>,
    name: String,
}

/// What a [`FloatingImage`] stands for.
pub struct FloatingImageView {
    pub width: u32,
    pub height: u32,
    pub data: Seq<u8>,
    pub name: Seq<char>,
}

impl FloatingImageView {
    /// The most bytes that the picture may hold.
    pub open spec fn capacity(self) -> nat {
        buffer_capacity(self.width, self.height)
    }
}

impl View for FloatingImage {
    type V = FloatingImageView;

    closed spec fn view(&self) -> FloatingImageView {
        FloatingImageView {
            width: self.width,
            height: self.height,
            data: self.data@,
            name: self.name@,
        }
    }
}

/// Bytes that an RGBA picture of `width` by `height` pixels takes. The count
/// is formed in 128 bits, which hold it for every pair of sides.
pub fn capacity_for(width: u32, height: u32) -> (capacity: u128)
    ensures
        capacity == buffer_capacity(width, height),
{
    assert(4 * (width as nat) * (height as nat) <= 4 * 0xFFFF_FFFF * 0xFFFF_FFFF)
        by (nonlinear_arith)
        requires
            width <= 0xFFFF_FFFF,
            height <= 0xFFFF_FFFF,
    ;
    4 * (width as u128) * (height as u128)
}

/// The capacity for any size is a whole number of pixels.
pub proof fn lemma_capacity_whole_pixels(width: u32, height: u32)
    ensures
        buffer_capacity(width, height) % 4 == 0,
{
    let pixels = (width as nat) * (height as nat);
    assert(4 * (width as nat) * (height as nat) == 4 * pixels) by (nonlinear_arith)
        requires
            pixels == (width as nat) * (height as nat),
    ;
}

impl FloatingImage {
    /// The bytes held never exceed what the size allows.
    #[verifier::type_invariant]
    pub open spec fn within_capacity(self) -> bool {
        self@.data.len() <= self@.capacity()
    }

    /// An empty picture of the given size and name. Room for
    /// `4 * width * height` bytes is reserved where the allocator grants it;
    /// the limit holds either way.
    pub fn new(width: u32, height: u32, name: String) -> (image: FloatingImage)
        ensures
            image@ == (FloatingImageView { width, height, data: Seq::<u8>::empty(), name: name@ }),
            image@.capacity() == buffer_capacity(width, height),
    {
        let buffersize: u128 = capacity_for(width, height);
        let mut data: Vec<u8> = Vec::new();
        if buffersize <= usize::MAX as u128 {
            let _ = data.try_reserve(buffersize as usize);
        }
        FloatingImage { width, height, data, name }
    }

    /// Hands the picture its bytes. More bytes than the capacity are refused
    /// with `BufferTooSmall`, and the picture stays as it was. Otherwise the
    /// bytes replace what the picture held; fewer bytes than the capacity
    /// are accepted.
    pub fn set_data(&mut self, data: Vec<u8>) -> (res: Result<(), ImageDataErrors>)
        ensures
            res is Err <==> data@.len() > old(self)@.capacity(),
            res is Err ==> res == Err::<(), ImageDataErrors>(ImageDataErrors::BufferTooSmall)
                && final(self)@ == old(self)@,
            res is Ok ==> final(self)@ == (FloatingImageView { data: data@, ..old(self)@ }),
    {
        let capacity: u128 = capacity_for(self.width, self.height);
        if data.len() as u128 > capacity {
            return Err(ImageDataErrors::BufferTooSmall);
        }
        self.data = data;
        Ok(())
    }

    /// Width in pixels.
    pub fn width(&self) -> (width: u32)
        ensures
            width == self@.width,
    {
        self.width
    }

    /// Height in pixels.
    pub fn height(&self) -> (height: u32)
        ensures
            height == self@.height,
    {
        self.height
    }

    /// The most bytes that the picture may hold.
    pub fn capacity(&self) -> (capacity: u128)
        ensures
            capacity == self@.capacity(),
    {
        capacity_for(self.width, self.height)
    }

    /// The bytes held; never more than the capacity.
    pub fn data(&self) -> (data: &Vec<u8>)
        ensures
            data@ == self@.data,
            data@.len() <= self@.capacity(),
    {
        proof {
            use_type_invariant(self);
        }
        &self.data
    }

    /// The name under which the picture is to be stored.
    pub fn name(&self) -> (name: &String)
        ensures
            name@ == self@.name,
    {
        &self.name
    }
}

/// Makes the output picture for a size and fills it with `data` in one step.
/// Fails with `BufferTooSmall` exactly when `data` is longer than
/// `4 * width * height`.
pub fn assemble(width: u32, height: u32, data: Vec<u8>, name: String) -> (res: Result<
    FloatingImage,
    ImageDataErrors,
>)
    ensures
        res is Err <==> data@.len() > buffer_capacity(width, height),
        res matches Err(e) ==> e == ImageDataErrors::BufferTooSmall,
        res matches Ok(image) ==> image@ == (FloatingImageView {
            width,
            height,
            data: data@,
            name: name@,
        }),
{
    let mut output = FloatingImage::new(width, height, name);
    match output.set_data(data) {
        Ok(()) => Ok(output),
        Err(e) => Err(e),
    }
}

} // verus!
