use omni::format::Format;

fn cli_command() -> clap::Command {
    clap::Command::new("omni")
        .arg(
            clap::Arg::new("in_path")
                .value_name("IN_PATH")
                .help("The input file to convert; absent means standard input"),
        )
        .arg(
            clap::Arg::new("out_path")
                .long("out-path")
                .short('o')
                .value_name("OUT_PATH")
                .help("The output file to write to; absent means standard output"),
        )
        .arg(
            clap::Arg::new("in_format")
                .long("in-format")
                .alias("if")
                .value_name("IN_FORMAT")
                .help("Treat the input as this format, over the extension's inference"),
        )
        .arg(
            clap::Arg::new("out_format")
                .long("out-format")
                .alias("of")
                .value_name("OUT_FORMAT")
                .help("Write the output in this format, over the extension's inference"),
        )
}

#[test]
fn verify_cli() {
    cli_command().debug_assert();
}

#[test]
fn cli_format_tokens_reach_the_library() {
    let m = cli_command().get_matches_from(vec!["omni", "--if", "Json", "--of", "yml"]);
    let inf = m.get_one::<String>("in_format").unwrap();
    let outf = m.get_one::<String>("out_format").unwrap();
    assert_eq!(Format::parse_token(inf), Ok(Format::JSON));
    assert_eq!(Format::parse_token(outf), Ok(Format::YAML));
}
