use cargo_pgo::pgo::{install_hint_around, llvm_profdata_install_hint, CargoCommand};

#[test]
fn subcommand_tokens() {
    assert_eq!(CargoCommand::Build.to_str(), "build");
    assert_eq!(CargoCommand::Test.to_str(), "test");
    assert_eq!(CargoCommand::Run.to_str(), "run");
}

#[test]
fn hint_around_a_command() {
    assert_eq!(
        install_hint_around("rustup component add llvm-tools-preview"),
        "Try installing `llvm-profdata` using `rustup component add llvm-tools-preview` \
or build LLVM manually and add its `bin` directory to PATH."
    );
    assert_eq!(
        install_hint_around(""),
        "Try installing `llvm-profdata` using `` or build LLVM manually and add its `bin` directory to PATH."
    );
}

#[test]
fn hint_is_plain_or_blue() {
    let plain = "Try installing `llvm-profdata` using `rustup component add llvm-tools-preview` \
or build LLVM manually and add its `bin` directory to PATH.";
    let blue = "Try installing `llvm-profdata` using `\x1b[34mrustup component add llvm-tools-preview\x1b[0m` \
or build LLVM manually and add its `bin` directory to PATH.";
    let hint = llvm_profdata_install_hint();
    assert!(hint == plain || hint == blue);
}
