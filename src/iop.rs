//! Image container and the contract of image operations.

use vstd::prelude::*;

verus! {

/// A numeric kind that can be a pixel channel.
pub trait Primitive: Copy {}

/// An integer channel kind.
pub trait IntPrimitive: Primitive {}

/// A floating channel kind, for operations that need fractional arithmetic.
pub trait FloatPrimitive: Primitive {}

impl Primitive for u8 {}

impl Primitive for u16 {}

impl Primitive for u32 {}

impl Primitive for u64 {}

impl Primitive for i8 {}

impl Primitive for i16 {}

impl Primitive for i32 {}

impl Primitive for i64 {}

impl IntPrimitive for u8 {}

impl IntPrimitive for u16 {}

impl IntPrimitive for u32 {}

impl IntPrimitive for u64 {}

impl IntPrimitive for i8 {}

impl IntPrimitive for i16 {}

impl IntPrimitive for i32 {}

impl IntPrimitive for i64 {}

/// One image sample: a primitive alone, or a pair, triple or quad of one
/// primitive kind.
pub trait Pixel {}

impl<T: Primitive> Pixel for T {}

impl<T: Primitive> Pixel for (T, T) {}

impl<T: Primitive> Pixel for (T, T, T) {}

impl<T: Primitive> Pixel for (T, T, T, T) {}

/// How the channel values of an image are to be read.
#[non_exhaustive]
#[allow(non_camel_case_types)]
#[derive(Clone, Copy, Debug, PartialEq, Eq, Structural)]
pub enum ColorSpace {
    /// Linear value.
    Linear,
    RGB,
    HSL,
    LCH,
    LAB,
    JzAzBz,
}

/// The unit of a gamma exponent: `Gamma(GAMMA_ONE)` is an exponent of 1.
pub const GAMMA_ONE: u32 = 1000;

/// The transfer function of the stored values.
#[non_exhaustive]
#[derive(Clone, Copy, Debug, PartialEq, Eq, Structural)]
pub enum Encoding {
    Linear,
    /// A gamma curve, its exponent in thousandths.
    Gamma(u32),
}

/// An owned, flat buffer of pixels of one shape. Its length is fixed when it
/// is made; pixels may be replaced in place.
#[derive(Debug, Clone)]
pub struct Image<T: Pixel> {
    image: Vec<T>,
}

impl<T: Pixel> View for Image<T> {
    type V = Seq<T>;

    closed spec fn view(&self) -> Seq<T> {
        self.image@
    }
}

impl<T: Pixel> Image<T> {
    pub fn new(pixels: Vec<T>) -> (r: Self)
        ensures
            r@ == pixels@,
    {
        Image { image: pixels }
    }

    pub fn len(&self) -> (r: usize)
        ensures
            r == self@.len(),
    {
        self.image.len()
    }

    pub fn get(&self, i: usize) -> (r: &T)
        requires
            i < self@.len(),
        ensures
            *r == self@[i as int],
    {
        &self.image[i]
    }

    pub fn set(&mut self, i: usize, p: T)
        requires
            i < old(self)@.len(),
        ensures
            final(self)@ == old(self)@.update(i as int, p),
    {
        self.image.set(i, p);
    }
}

/// An image-to-image operation from pixels of shape `T` to pixels of shape
/// `U`, in a precise and a fast form, in place and into a second image.
pub trait ImageOp<T: Pixel, U: Pixel> {
    type Error;

    const NAME: &'static str;

    const DESCRIPTION: &'static str;

    fn input_format() -> &'static [()];

    fn output_format() -> &'static [()];

    /// Transforms `img` in place; its length stays.
    fn pipe_inplace(&self, img: &mut Image<T>) -> (r: Result<(), Self::Error>)
        ensures
            final(img)@.len() == old(img)@.len(),
    ;

    /// As `pipe_inplace`, with no checks of its input and with arithmetic that
    /// may be approximate; the caller has checked the input.
    fn pipe_inplace_fast(&self, img: &mut Image<T>) -> (r: Result<(), Self::Error>)
        ensures
            final(img)@.len() == old(img)@.len(),
    ;

    /// Fills `out` from `img`.
    fn pipe(&self, img: &mut Image<T>, out: &mut Image<U>);

    /// As `pipe`, with arithmetic that may be approximate.
    fn pipe_fast(&self, img: &mut Image<T>, out: &mut Image<U>);
}

} // verus!
