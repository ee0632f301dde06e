use pg_elephantduck::settings::{
    get_elephantduck_path, get_elephantduck_threads, init_gucs, ElephantduckGucSettings,
    GucDefinition, GucValue, DEFAULT_THREADS, MAX_THREADS, MIN_THREADS,
};

#[test]
fn the_store_lies_under_the_data_directory() {
    let settings = ElephantduckGucSettings::new(Some("/var/lib/postgresql/data".to_string()));
    assert_eq!(get_elephantduck_path(&settings), Some("/var/lib/postgresql/data/elephantduck"));
    assert_eq!(get_elephantduck_threads(&settings), 4);
}

#[test]
fn without_a_data_directory_the_store_lies_under_tmp() {
    let settings = ElephantduckGucSettings::new(None);
    assert_eq!(get_elephantduck_path(&settings), Some("/tmp/elephantduck"));
    assert_eq!(settings.threads, DEFAULT_THREADS);
}

#[test]
fn a_path_that_was_unset_is_none() {
    let settings = ElephantduckGucSettings { path: None, threads: 8 };
    assert_eq!(get_elephantduck_path(&settings), None);
    assert_eq!(get_elephantduck_threads(&settings), 8);
}

#[test]
fn the_settings_are_registered_under_their_names() {
    let settings = ElephantduckGucSettings::new(Some("/pg".to_string()));
    let expected = vec![
        GucDefinition {
            name: "elephantduck.path".to_string(),
            short_description: "Specifies the directory where ElephantDuck will store parquet files."
                .to_string(),
            long_description: "Specifies the directory where ElephantDuck will store parquet files."
                .to_string(),
            value: GucValue::Text { default_text: Some("/pg/elephantduck".to_string()) },
        },
        GucDefinition {
            name: "elephantduck.threads".to_string(),
            short_description: "Specifies the number of threads to use for ElephantDuck operations."
                .to_string(),
            long_description: "Specifies the number of threads to use for ElephantDuck operations."
                .to_string(),
            value: GucValue::Int { default_number: 4, min: 1, max: 64 },
        },
    ];
    assert_eq!(init_gucs(&settings), expected);
    assert_eq!(settings.init(), expected);
}

#[test]
fn the_number_of_threads_stays_within_its_bounds() {
    let mut settings = ElephantduckGucSettings::new(None);
    assert_eq!((MIN_THREADS, MAX_THREADS), (1, 64));
    assert!(settings.set_threads(1));
    assert_eq!(get_elephantduck_threads(&settings), 1);
    assert!(settings.set_threads(64));
    assert_eq!(get_elephantduck_threads(&settings), 64);
    assert!(!settings.set_threads(0));
    assert!(!settings.set_threads(65));
    assert!(!settings.set_threads(-1));
    assert_eq!(get_elephantduck_threads(&settings), 64);
}
