use wig_engine::assets::{material_index, texture_source, AssetError, TextureSource};
use wig_engine::block::{Block, Density, Voxel};
use wig_engine::console::ConsoleText;
use wig_engine::controller::Key;
use wig_engine::utils::IsNullOrEmpty;

fn shown(c: &ConsoleText) -> String {
    c.display_text().into_iter().collect()
}

#[test]
fn console_starts_with_banner() {
    let c = ConsoleText::new();
    assert_eq!(shown(&c), "WIG Engine v0.1 \n");
    assert!(!c.input_mode());
}

#[test]
fn enter_opens_prompt_line_and_toggles_input_mode() {
    let mut c = ConsoleText::new();
    c.process_input(Key::Enter, true);
    assert!(c.input_mode());
    assert_eq!(shown(&c), "WIG Engine v0.1 \n\ne");
    c.process_input(Key::Enter, false);
    assert!(c.input_mode());
    c.process_input(Key::Enter, true);
    assert!(!c.input_mode());
    assert_eq!(shown(&c), "WIG Engine v0.1 \n\ne");
}

#[test]
fn backspace_only_in_input_mode() {
    let mut c = ConsoleText::new();
    c.process_input(Key::Backspace, true);
    assert_eq!(shown(&c), "WIG Engine v0.1 \n");
    c.process_input(Key::Enter, true);
    c.process_input(Key::Backspace, true);
    assert_eq!(shown(&c), "WIG Engine v0.1 \ne");
}

#[test]
fn append_line_and_backspace_on_empty_log() {
    let mut c = ConsoleText::new();
    c.append_line("héllo");
    assert_eq!(shown(&c), "WIG Engine v0.1 \n\nhéllo");
    for _ in 0..40 {
        c.backspace();
    }
    assert_eq!(shown(&c), "\nhéllo");
}

#[test]
fn missing_texture_falls_back_to_white_texel() {
    match texture_source(Err(AssetError::NotFound)).unwrap() {
        TextureSource::Rgba { width, height, pixels } => {
            assert_eq!((width, height), (1, 1));
            assert_eq!(pixels, vec![255, 255, 255, 255]);
        }
        other => panic!("unexpected {:?}", other),
    }
}

#[test]
fn loaded_texture_bytes_pass_through() {
    match texture_source(Ok(vec![1, 2, 3])).unwrap() {
        TextureSource::Encoded(b) => assert_eq!(b, vec![1, 2, 3]),
        other => panic!("unexpected {:?}", other),
    }
}

#[test]
fn other_texture_errors_propagate() {
    assert_eq!(texture_source(Err(AssetError::Io)).unwrap_err(), AssetError::Io);
    assert_eq!(texture_source(Err(AssetError::Decode)).unwrap_err(), AssetError::Decode);
}

#[test]
fn material_defaults_to_first() {
    assert_eq!(material_index(None), 0);
    assert_eq!(material_index(Some(3)), 3);
}

#[test]
fn null_or_empty_text() {
    assert!(None::<&str>.is_null_or_empty());
    assert!(Some("").is_null_or_empty());
    assert!(!Some("x").is_null_or_empty());
    assert!(None::<String>.is_null_or_empty());
    assert!(Some(String::new()).is_null_or_empty());
    assert!(!Some(String::from("cube.png")).is_null_or_empty());
}

#[test]
fn block_density_and_solidity() {
    let e = Block::new_empty();
    assert!(!e.is_solid());
    assert_eq!(e.density(), 0);
    let f: Voxel = Block::new_full();
    assert!(f.is_solid());
    assert_eq!(f.density(), 255);
    let mut b = Block::new(Density(1));
    assert!(b.is_solid());
    b.set_density(0);
    assert!(!b.is_solid());
}
