use chess_binpack_utils::cli::{
    conversion_route, run, Backend, BenchmarkCommand, Cli, Command, ConversionRoute, ConvertCommand, Format,
    InspectCommand, ShuffleCommand, Task, UniqueCommand, ValidateCommand,
};
use chess_binpack_utils::error::Error;

fn convert(from: Option<Format>, to: Option<Format>, input: &str, output: &str) -> Result<Task, Error> {
    run(Cli {
        command: Command::Convert(ConvertCommand {
            from,
            to,
            input: input.to_string(),
            output: output.to_string(),
            limit: Some(7),
        }),
    })
}

#[test]
fn format_names() {
    assert_eq!(Format::Sfbinpack.name(), "sfbinpack");
    assert_eq!(Format::Viriformat.name(), "viriformat");
    assert_eq!(Format::Bulletformat.name(), "bulletformat");
    assert_eq!(Format::Bulletplain.name(), "bulletplain");
}

#[test]
fn formats_are_inferred_from_extensions() {
    for (path, format) in [
        ("a.vf", Format::Viriformat),
        ("dir/a.viri", Format::Viriformat),
        ("a.viriformat", Format::Viriformat),
        ("a.sf", Format::Sfbinpack),
        ("a.sfbinpack", Format::Sfbinpack),
        ("test/ep1.binpack", Format::Sfbinpack),
        ("a.bf", Format::Bulletformat),
        ("a.bullet", Format::Bulletformat),
        ("a.bulletformat", Format::Bulletformat),
        ("a.txt", Format::Bulletplain),
        ("a.bulletplain", Format::Bulletplain),
    ] {
        assert_eq!(Format::from_path(path).unwrap(), format);
    }
}

#[test]
fn unknown_extensions_are_rejected() {
    match Format::from_path("games.pgn") {
        Err(Error::InvalidFormat(m)) => assert_eq!(m, "unknown file extension for format inference: pgn"),
        other => panic!("unexpected: {other:?}"),
    }
    match Format::from_path("games") {
        Err(Error::InvalidFormat(m)) => assert_eq!(m, "could not infer format from path: \"games\""),
        other => panic!("unexpected: {other:?}"),
    }
    match Backend::from_path("positions.bf") {
        Err(Error::InvalidFormat(m)) => assert_eq!(m, "unknown file extension for backend inference: bf"),
        other => panic!("unexpected: {other:?}"),
    }
    assert_eq!(Backend::from_path("a.vf").unwrap(), Backend::Viriformat);
}

#[test]
fn labels_name_games_or_positions() {
    assert_eq!(Format::Sfbinpack.item_label(), "games");
    assert_eq!(Format::Viriformat.item_label_singular(), "game");
    assert_eq!(Format::Bulletformat.item_label(), "positions");
    assert_eq!(Format::Bulletplain.item_label_singular(), "position");
    assert_eq!(Format::Sfbinpack.position_label(), "positions");
    assert_eq!(Format::Viriformat.position_label_singular(), "position");
}

#[test]
fn supported_conversions_have_routes() {
    assert_eq!(conversion_route(Format::Sfbinpack, Format::Viriformat).unwrap(), ConversionRoute::SfbinpackToViriformat);
    assert_eq!(conversion_route(Format::Viriformat, Format::Sfbinpack).unwrap(), ConversionRoute::ViriformatToSfbinpack);
    assert_eq!(
        conversion_route(Format::Bulletplain, Format::Bulletformat).unwrap(),
        ConversionRoute::BulletplainToBulletformat
    );
}

#[test]
fn same_format_conversion_is_rejected() {
    for format in [Format::Sfbinpack, Format::Viriformat, Format::Bulletformat, Format::Bulletplain] {
        match conversion_route(format, format) {
            Err(Error::UnsupportedConversion { from, to }) => {
                assert_eq!(from, format.name());
                assert_eq!(to, format.name());
            }
            other => panic!("unexpected: {other:?}"),
        }
    }
}

#[test]
fn positions_cannot_become_games() {
    assert!(matches!(
        conversion_route(Format::Bulletformat, Format::Sfbinpack),
        Err(Error::UnsupportedConversion { from: "bulletformat", to: "sfbinpack" })
    ));
    assert!(conversion_route(Format::Bulletformat, Format::Viriformat).is_err());
}

#[test]
fn convert_infers_missing_formats() {
    match convert(None, None, "in.binpack", "out.viri").unwrap() {
        Task::Convert { route, input, output, limit } => {
            assert_eq!(route, ConversionRoute::SfbinpackToViriformat);
            assert_eq!((input.as_str(), output.as_str(), limit), ("in.binpack", "out.viri", Some(7)));
        }
        _ => panic!("expected a conversion"),
    }
    match convert(Some(Format::Bulletplain), Some(Format::Bulletformat), "in.data", "out.data").unwrap() {
        Task::Convert { route, .. } => assert_eq!(route, ConversionRoute::BulletplainToBulletformat),
        _ => panic!("expected a conversion"),
    }
    assert!(matches!(convert(None, None, "in.bf", "out.viri"), Err(Error::UnsupportedConversion { .. })));
    assert!(matches!(convert(None, None, "in.data", "out.viri"), Err(Error::InvalidFormat(_))));
}

#[test]
fn other_commands_resolve_their_backend() {
    let unique = run(Cli {
        command: Command::Unique(UniqueCommand { backend: None, input: "a.vf".to_string(), limit: Some(3) }),
    });
    assert!(matches!(unique, Ok(Task::Unique { backend: Backend::Viriformat, limit: Some(3), .. })));
    let validate = run(Cli {
        command: Command::Validate(ValidateCommand { backend: Some(Backend::Sfbinpack), input: "x".to_string() }),
    });
    assert!(matches!(validate, Ok(Task::Validate { backend: Backend::Sfbinpack, .. })));
    let benchmark = run(Cli {
        command: Command::Benchmark(BenchmarkCommand { format: None, input: "p.txt".to_string() }),
    });
    assert!(matches!(benchmark, Ok(Task::Benchmark { format: Format::Bulletplain, .. })));
}

#[test]
fn inspect_limit_must_fit() {
    let inspect = |limit: Option<u128>| {
        run(Cli { command: Command::Inspect(InspectCommand { format: None, input: "p.bf".to_string(), limit }) })
    };
    assert!(matches!(inspect(Some(5)), Ok(Task::Inspect { format: Format::Bulletformat, limit: Some(5), .. })));
    assert!(matches!(inspect(None), Ok(Task::Inspect { limit: None, .. })));
    assert!(matches!(inspect(Some(u128::MAX)), Err(Error::InvalidLimit(u128::MAX))));
}

#[test]
fn shuffle_gets_its_output_paths() {
    let shuffle = run(Cli {
        command: Command::Shuffle(ShuffleCommand {
            backend: None,
            input: "in.binpack".to_string(),
            output: "out/data.binpack".to_string(),
            split: 2,
            seed: Some(1),
        }),
    });
    match shuffle.unwrap() {
        Task::Shuffle { backend, outputs, seed, .. } => {
            assert_eq!(backend, Backend::Sfbinpack);
            assert_eq!(outputs, vec!["out/data_0.binpack".to_string(), "out/data_1.binpack".to_string()]);
            assert_eq!(seed, Some(1));
        }
        _ => panic!("expected a shuffle"),
    }
}
