use phany::config::{Config, ConfigError};
use phany::datastore::{Collection, Image as Record};
use phany::iop::{ColorSpace, Encoding, Image, ImageOp, IntPrimitive, Pixel, Primitive, GAMMA_ONE};

fn is_pixel<P: Pixel>() -> bool {
    true
}

fn is_primitive<P: Primitive>() -> bool {
    true
}

fn is_int<P: IntPrimitive>() -> bool {
    true
}

#[test]
fn rgb8_triple_is_pixel() {
    assert!(is_pixel::<(u8, u8, u8)>());
    assert!(is_pixel::<u16>());
    assert!(is_pixel::<(i32, i32)>());
    assert!(is_pixel::<(u64, u64, u64, u64)>());
    assert!(is_primitive::<i8>());
    assert!(is_int::<u32>());
}

#[test]
fn image_keeps_pixels_and_length() {
    let mut img = Image::new(vec![(1u8, 2u8, 3u8), (4, 5, 6)]);
    assert_eq!(img.len(), 2);
    assert_eq!(*img.get(1), (4, 5, 6));
    img.set(0, (9, 9, 9));
    assert_eq!(*img.get(0), (9, 9, 9));
    assert_eq!(img.len(), 2);
    let empty: Image<u8> = Image::new(vec![]);
    assert_eq!(empty.len(), 0);
}

#[test]
fn color_tags_are_independent() {
    let space = ColorSpace::RGB;
    let enc = Encoding::Gamma(2200);
    assert_eq!(space, ColorSpace::RGB);
    assert_ne!(enc, Encoding::Linear);
    assert_eq!(GAMMA_ONE, 1000);
}

#[test]
fn config_defaults_and_save_fails() {
    assert_eq!(Config::new(), Config {});
    assert_eq!(Config::load(), Err(ConfigError::NotImplemented));
    assert_eq!(Config::save(), Err(ConfigError::NotImplemented));
}

#[test]
fn records_clone() {
    let c = Collection { folder: "f".to_string(), name: "n".to_string() };
    assert_eq!(c.clone().name, "n");
    let r = Record {
        path: "p".to_string(),
        collection: "c".to_string(),
        size: (640, 480),
        tags: vec!["a".to_string()],
        description: "d".to_string(),
    };
    let r2 = r.clone();
    assert_eq!(r2.size, (640, 480));
    assert_eq!(r2.tags, vec!["a".to_string()]);
    assert_eq!(r2.path, "p");
}

struct Invert;

impl ImageOp<u8, u8> for Invert {
    type Error = String;

    const NAME: &'static str = "invert";
    const DESCRIPTION: &'static str = "inverts each channel";

    fn input_format() -> &'static [()] {
        &[]
    }

    fn output_format() -> &'static [()] {
        &[]
    }

    fn pipe_inplace(&self, img: &mut Image<u8>) -> Result<(), String> {
        for i in 0..img.len() {
            let v = *img.get(i);
            img.set(i, u8::MAX.checked_sub(v).ok_or("underflow")?);
        }
        Ok(())
    }

    fn pipe_inplace_fast(&self, img: &mut Image<u8>) -> Result<(), String> {
        for i in 0..img.len() {
            let v = *img.get(i);
            img.set(i, !v);
        }
        Ok(())
    }

    fn pipe(&self, img: &mut Image<u8>, out: &mut Image<u8>) {
        for i in 0..img.len().min(out.len()) {
            out.set(i, 255 - *img.get(i));
        }
    }

    fn pipe_fast(&self, img: &mut Image<u8>, out: &mut Image<u8>) {
        for i in 0..img.len().min(out.len()) {
            out.set(i, !*img.get(i));
        }
    }
}

#[test]
fn fast_and_precise_ops_agree() {
    let pixels: Vec<u8> = (0..=255).collect();
    let mut a = Image::new(pixels.clone());
    let mut b = Image::new(pixels.clone());
    Invert.pipe_inplace(&mut a).unwrap();
    Invert.pipe_inplace_fast(&mut b).unwrap();
    let mut c = Image::new(vec![0u8; 256]);
    let mut d = Image::new(vec![0u8; 256]);
    let mut src = Image::new(pixels);
    Invert.pipe(&mut src, &mut c);
    Invert.pipe_fast(&mut src, &mut d);
    for i in 0..256 {
        assert_eq!(*a.get(i), *b.get(i));
        assert_eq!(*c.get(i), *d.get(i));
        assert_eq!(*a.get(i), *c.get(i));
    }
    assert_eq!(a.len(), 256);
    assert_eq!(Invert::NAME, "invert");
}
