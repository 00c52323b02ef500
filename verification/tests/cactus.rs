use hyprnote::cactus_model::{CactusLlmModel, CactusModel, CactusSttModel};

#[test]
fn stt_model_names_and_urls() {
    let m = CactusSttModel::WhisperSmallInt4;
    assert_eq!(m.asset_id(), "cactus-whisper-small-int4");
    assert_eq!(m.dir_name(), "whisper-small-int4");
    assert_eq!(m.zip_name(), "whisper-small-int4.zip");
    assert_eq!(
        m.model_url(),
        Some("https://hyprnote.s3.us-east-1.amazonaws.com/v0/Cactus-Compute/weights/whisper-small-int4.zip")
    );
    assert_eq!(m.checksum(), Some(3458434299));
    assert_eq!(m.display_name(), "Whisper Small (INT4)");
    assert_eq!(m.description(), "");
    assert!(m.is_cross_platform());
    assert!(!m.is_apple());
    assert_eq!(CactusSttModel::WhisperMediumInt4.model_url(), None);
    assert_eq!(CactusSttModel::WhisperMediumInt4.checksum(), None);
    assert_eq!(CactusSttModel::WhisperSmallInt4Apple.description(), "Apple Neural Engine");
    assert!(CactusSttModel::WhisperSmallInt4Apple.is_apple());
}

#[test]
fn asset_ids_round_trip() {
    for m in CactusSttModel::all() {
        assert_eq!(CactusSttModel::from_asset_id(m.asset_id()), Some(*m));
        assert_eq!(m.asset_id(), format!("cactus-{}", m.dir_name()));
    }
    for m in CactusLlmModel::all() {
        assert_eq!(CactusLlmModel::from_asset_id(m.asset_id()), Some(*m));
    }
    assert_eq!(CactusSttModel::from_asset_id("cactus-unknown"), None);
}

#[test]
fn combined_catalog() {
    let all = CactusModel::all();
    assert_eq!(all.len(), CactusSttModel::all().len() + CactusLlmModel::all().len());
    let first = all[0];
    assert_eq!(first.asset_id(), CactusSttModel::all()[0].asset_id());
    assert_eq!(CactusModel::stt().len(), 16);
    assert_eq!(CactusModel::llm().len(), 9);
}

#[test]
fn apple_models_are_marked_consistently() {
    let mut apple = 0;
    for m in CactusSttModel::all() {
        let a = m.is_apple();
        assert_eq!(m.asset_id().ends_with("-apple"), a);
        assert_eq!(m.dir_name().ends_with("-apple"), a);
        assert_eq!(m.display_name().contains("Apple NPU"), a);
        assert_eq!(m.description() == "Apple Neural Engine", a);
        if !a {
            assert_eq!(m.description(), "");
        }
        assert_eq!(m.asset_id(), format!("cactus-{}", m.dir_name()));
        if a {
            apple += 1;
        }
    }
    assert_eq!(apple, 8);
    for m in CactusLlmModel::all() {
        assert_eq!(m.asset_id().ends_with("-apple"), m.is_apple());
        assert_eq!(m.asset_id(), format!("cactus-{}", m.dir_name()));
    }
    assert_eq!(CactusLlmModel::Lfm2_5_1_2bInstruct.asset_id(), "cactus-lfm2.5-1.2b-instruct");
}

#[test]
fn catalog_pairs_and_distinct_ids() {
    let a = CactusSttModel::all();
    assert_eq!(a.len(), 16);
    for k in 0..8 {
        assert!(!a[2 * k].is_apple());
        assert!(a[2 * k + 1].is_apple());
        assert_eq!(a[2 * k + 1].asset_id(), format!("{}-apple", a[2 * k].asset_id()));
        assert_eq!(a[2 * k + 1].dir_name(), format!("{}-apple", a[2 * k].dir_name()));
    }
    let all = CactusModel::all();
    assert_eq!(all.len(), 25);
    for i in 0..all.len() {
        for j in (i + 1)..all.len() {
            assert_ne!(all[i].asset_id(), all[j].asset_id());
        }
    }
}
