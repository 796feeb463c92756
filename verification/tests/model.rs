use kaikei_voice::model::{
    archive_file, reazon_model_complete, reazon_model_exists, ModelFile, ModelFiles,
};

fn kept(name: &str) -> Option<&'static str> {
    archive_file(Some(name)).map(|f| f.file_name())
}

#[test]
fn four_files_are_picked() {
    assert_eq!(kept("encoder-epoch-99-avg-1.int8.onnx"), Some("encoder.onnx"));
    assert_eq!(kept("joiner-epoch-99-avg-1.int8.onnx"), Some("joiner.onnx"));
    assert_eq!(kept("decoder-epoch-99-avg-1.onnx"), Some("decoder.onnx"));
    assert_eq!(kept("tokens.txt"), Some("tokens.txt"));
}

#[test]
fn other_files_are_passed_over() {
    for name in [
        "encoder-epoch-99-avg-1.onnx",
        "joiner-epoch-99-avg-1.onnx",
        "decoder-epoch-99-avg-1.int8.onnx",
        "README.md",
        "my-tokens.txt",
        "tokens.txt.bak",
        "bpe.model",
        "",
    ] {
        assert_eq!(kept(name), None, "{}", name);
    }
    assert!(archive_file(None).is_none());
}

#[test]
fn earlier_kinds_come_first() {
    assert_eq!(kept("encoder-joiner.int8.onnx"), Some("encoder.onnx"));
    assert_eq!(kept("joiner-decoder.int8.onnx"), Some("joiner.onnx"));
    assert_eq!(kept("encoder-decoder.onnx"), Some("decoder.onnx"));
}

#[test]
fn files_are_kept_apart() {
    let names = [
        ModelFile::Encoder.file_name(),
        ModelFile::Decoder.file_name(),
        ModelFile::Joiner.file_name(),
        ModelFile::Tokens.file_name(),
    ];
    for i in 0..4 {
        for j in 0..i {
            assert_ne!(names[i], names[j]);
        }
    }
}

#[test]
fn model_needs_three_files() {
    assert!(reazon_model_exists(true, true, true));
    assert!(!reazon_model_exists(false, true, true));
    assert!(!reazon_model_exists(true, false, true));
    assert!(!reazon_model_exists(true, true, false));
}

#[test]
fn complete_model_has_four_files() {
    for n in 0..16 {
        let files = ModelFiles {
            encoder: n & 1 != 0,
            decoder: n & 2 != 0,
            joiner: n & 4 != 0,
            tokens: n & 8 != 0,
        };
        assert_eq!(reazon_model_complete(&files), n == 15);
    }
}
