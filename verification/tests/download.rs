use kaikei_voice::download::{Download, DownloadAction, DownloadEvent, Model, Report};
use kaikei_voice::model::ModelFiles;

fn files(encoder: bool, decoder: bool, joiner: bool, tokens: bool) -> ModelFiles {
    ModelFiles { encoder, decoder, joiner, tokens }
}

fn begun(model: Model, length: Option<u64>) -> Download {
    let mut d = Download::new(model);
    assert!(matches!(d.step(DownloadEvent::Begin { present: false }), DownloadAction::Fetch));
    let response =
        DownloadEvent::Response { success: true, status: "200 OK".to_string(), length };
    assert!(matches!(d.step(response), DownloadAction::Receive));
    d
}

fn answered(action: DownloadAction) -> Result<(), String> {
    match action {
        DownloadAction::Answer(r) => r,
        _ => panic!("no answer"),
    }
}

#[test]
fn present_model_is_not_fetched() {
    for model in [Model::Whisper, Model::Reazon] {
        let mut d = Download::new(model);
        assert_eq!(answered(d.step(DownloadEvent::Begin { present: true })), Ok(()));
    }
}

#[test]
fn refused_download_tells_the_status() {
    let refused = || DownloadEvent::Response {
        success: false,
        status: "404 Not Found".to_string(),
        length: None,
    };
    assert_eq!(
        answered(Download::new(Model::Whisper).step(refused())),
        Err("ダウンロード失敗: 404 Not Found".to_string())
    );
    assert_eq!(
        answered(Download::new(Model::Reazon).step(refused())),
        Err("DL失敗: 404 Not Found".to_string())
    );
}

#[test]
fn report_comes_at_two_million_bytes() {
    let mut d = begun(Model::Whisper, Some(5_000_000));
    assert!(matches!(d.step(DownloadEvent::Chunk(1_999_999)), DownloadAction::Continue));
    match d.step(DownloadEvent::Chunk(1)) {
        DownloadAction::Report(r) => {
            assert_eq!((r.downloaded, r.total, r.done), (2_000_000, 5_000_000, false));
        }
        _ => panic!("no report"),
    }
    assert!(matches!(d.step(DownloadEvent::Chunk(0)), DownloadAction::Continue));
    match d.step(DownloadEvent::Chunk(2_500_000)) {
        DownloadAction::Report(r) => assert_eq!(r.downloaded, 4_500_000),
        _ => panic!("no report"),
    }
}

#[test]
fn reports_are_spaced_and_keep_up() {
    let mut d = begun(Model::Reazon, None);
    let mut came: u64 = 0;
    let mut last: u64 = 0;
    for i in 0..2000_usize {
        let len = (i * 7919) % 65536;
        came += len as u64;
        if let DownloadAction::Report(r) = d.step(DownloadEvent::Chunk(len)) {
            assert_eq!(r.downloaded, came);
            assert_eq!(r.total, 0);
            assert!(came - last >= 2_000_000);
            last = came;
        }
        assert!(came - last < 2_000_000);
    }
    assert!(last > 0);
}

#[test]
fn installed_model_is_announced() {
    let mut d = begun(Model::Whisper, Some(9));
    d.step(DownloadEvent::Chunk(9));
    assert!(matches!(d.step(DownloadEvent::Ended), DownloadAction::Rename));
    match d.step(DownloadEvent::Renamed) {
        DownloadAction::Announce(r) => assert_eq!((r.downloaded, r.total, r.done), (9, 9, true)),
        _ => panic!("not announced"),
    }
}

#[test]
fn incomplete_archive_is_an_error() {
    let mut d = begun(Model::Reazon, Some(9));
    assert!(matches!(d.step(DownloadEvent::Ended), DownloadAction::Unpack));
    for lacking in [
        files(false, true, true, true),
        files(true, false, true, true),
        files(true, true, false, true),
        files(true, true, true, false),
        files(false, false, false, false),
    ] {
        assert_eq!(
            answered(d.step(DownloadEvent::Unpacked { files: lacking })),
            Err("モデル展開に失敗（必要ファイルが見つかりません）".to_string())
        );
    }
    assert!(matches!(
        d.step(DownloadEvent::Unpacked { files: files(true, true, true, true) }),
        DownloadAction::Announce(_)
    ));
}

#[test]
fn failure_is_answered() {
    let mut d = begun(Model::Reazon, Some(9));
    assert_eq!(
        answered(d.step(DownloadEvent::Failed("disk full".to_string()))),
        Err("disk full".to_string())
    );
}

#[test]
fn report_in_json() {
    let r = Report { downloaded: 2_000_000, total: 5_000_000, done: false };
    assert_eq!(r.payload().to_string(), r#"{"downloaded":2000000,"total":5000000}"#);
    let r = Report { downloaded: 5, total: 5, done: true };
    assert_eq!(r.payload().to_string(), r#"{"done":true,"downloaded":5,"total":5}"#);
}
