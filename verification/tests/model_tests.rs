use whisper::errors::TranscribeError;
use whisper::models::Model;

#[test]
fn parse_name_accepts_the_closed_set() {
    assert_eq!(Model::parse_name("base"), Some(Model::Base));
    assert_eq!(Model::parse_name("tiny"), Some(Model::Tiny));
    assert_eq!(Model::parse_name("small"), Some(Model::Small));
    assert_eq!(Model::parse_name("medium"), Some(Model::Medium));
    assert_eq!(Model::parse_name("large"), Some(Model::Large));
}

#[test]
fn parse_name_is_case_insensitive() {
    assert_eq!(Model::parse_name("BASE"), Some(Model::Base));
    assert_eq!(Model::parse_name("Tiny"), Some(Model::Tiny));
    assert_eq!(Model::parse_name("sMaLL"), Some(Model::Small));
    assert_eq!(Model::parse_name("MEDIUM"), Some(Model::Medium));
    assert_eq!(Model::parse_name("Large"), Some(Model::Large));
}

#[test]
fn parse_name_rejects_everything_else() {
    assert_eq!(Model::parse_name(""), None);
    assert_eq!(Model::parse_name("huge"), None);
    assert_eq!(Model::parse_name("base "), None);
    assert_eq!(Model::parse_name(" base"), None);
    assert_eq!(Model::parse_name("basé"), None);
    assert_eq!(Model::parse_name("bases"), None);
}

#[test]
fn paths_follow_the_naming_scheme() {
    assert_eq!(Model::Base.name(), "base");
    assert_eq!(Model::Base.file_name(), "ggml-base.bin");
    assert_eq!(Model::Base.path(), "./models/ggml-base.bin");
    assert_eq!(Model::Tiny.path(), "./models/ggml-tiny.bin");
    assert_eq!(Model::Small.path(), "./models/ggml-small.bin");
    assert_eq!(Model::Medium.path(), "./models/ggml-medium.bin");
    assert_eq!(Model::Large.path(), "./models/ggml-large.bin");
}

#[test]
fn list_gives_every_model_in_declaration_order() {
    let l = Model::list();
    assert_eq!(
        l,
        vec![Model::Base, Model::Tiny, Model::Small, Model::Medium, Model::Large]
    );
}

#[test]
fn resolve_rejects_unknown_names() {
    assert_eq!(
        Model::resolve(None, true),
        Err(TranscribeError::UnknownModel)
    );
    assert_eq!(
        Model::resolve(None, false),
        Err(TranscribeError::UnknownModel)
    );
}

#[test]
fn resolve_rejects_a_missing_weight_file() {
    assert_eq!(
        Model::resolve(Some(Model::Base), false),
        Err(TranscribeError::ModelUnavailable)
    );
}

#[test]
fn resolve_accepts_a_present_weight_file() {
    assert_eq!(Model::resolve(Some(Model::Large), true), Ok(Model::Large));
}

#[test]
fn model_errors_identify_the_acceptable_names() {
    for e in [TranscribeError::UnknownModel, TranscribeError::ModelUnavailable] {
        let msg = e.message();
        for name in ["base", "tiny", "small", "medium", "large"] {
            assert!(msg.contains(name), "{msg} must name {name}");
        }
    }
}

#[test]
fn every_error_has_a_distinct_message() {
    let all = [
        TranscribeError::IoError,
        TranscribeError::ConversionFailed,
        TranscribeError::UnsupportedAudioFormat,
        TranscribeError::ModelLoadError,
        TranscribeError::SessionError,
        TranscribeError::InferenceError,
        TranscribeError::UnknownModel,
        TranscribeError::ModelUnavailable,
    ];
    for (i, a) in all.iter().enumerate() {
        for (j, b) in all.iter().enumerate() {
            if i != j {
                assert_ne!(a.message(), b.message());
            }
        }
    }
}
