use log3_lib::patcher::{
    add_console_to_source, add_console_to_sources, patch_metadata_source, patch_source_unit,
    SourceCodeEntry, SourceCodeMetadata,
};
use regex::Regex;

const IMPORT: &str = "import \"hardhat/console.sol\";\n\n";
const LIBRARY: &str = "library console {\n}\n";

fn pattern() -> Regex {
    Regex::new(r"(?m)^([ \t]*)//([ \t]*console\.log)").unwrap()
}

fn unit(path: &str, content: &str) -> SourceCodeEntry {
    SourceCodeEntry { path: path.to_string(), content: content.to_string() }
}

#[test]
fn uncomments_a_commented_call() {
    let source = "contract C {\n    // console.log(\"x\", 1);\n}\n";
    assert_eq!(patch_source_unit(source), "contract C {\n     console.log(\"x\", 1);\n}\n");
}

#[test]
fn keeps_the_blanks_on_both_sides_of_the_marker() {
    assert_eq!(patch_source_unit("a\n \t//\t console.log(1);"), "a\n \t\t console.log(1);");
}

#[test]
fn leaves_live_calls_and_other_comments_alone() {
    let source = "a\n  console.log(1);\n  // a comment\n  x = 1; // console.log(2);\n";
    assert_eq!(patch_source_unit(source), source);
}

#[test]
fn the_first_line_is_a_line_as_every_other() {
    assert_eq!(patch_source_unit("//console.log(1);\nb"), "console.log(1);\nb");
    assert_eq!(patch_source_unit("//console.log(1);\n//console.log(2);"), "console.log(1);\nconsole.log(2);");
    assert_eq!(patch_source_unit(" \t// console.log(x)"), " \t console.log(x)");
    assert_eq!(patch_source_unit("//console.log(1);"), "console.log(1);");
    assert_eq!(patch_source_unit("\n//console.log(1);"), "\nconsole.log(1);");
    assert_eq!(patch_source_unit("x = 1; //console.log(1);"), "x = 1; //console.log(1);");
}

#[test]
fn each_commented_call_loses_two_characters_and_no_line_is_lost() {
    let source = "//console.log(0);\na\n  // console.log(1);\n// b\n\n\t//\tconsole.log(2);\n//console.log(3)";
    let patched = patch_source_unit(source);
    assert_eq!(patched, "console.log(0);\na\n   console.log(1);\n// b\n\n\t\tconsole.log(2);\nconsole.log(3)");
    assert_eq!(patched.len(), source.len() - 2 * 4);
    assert_eq!(patched.lines().count(), source.lines().count());
    assert_eq!(patch_source_unit("//console.log(1);").len(), 15);
}

#[test]
fn only_a_dot_stands_between_console_and_log() {
    assert_eq!(patch_source_unit("\n//console.log"), "\nconsole.log");
    assert_eq!(patch_source_unit("\n//consoleXlog"), "\n//consoleXlog");
    assert_eq!(patch_source_unit("\n//console\nlog"), "\n//console\nlog");
    assert_eq!(patch_source_unit("\n//console\u{e9}log"), "\n//console\u{e9}log");
    assert_eq!(patch_source_unit("//console log"), "//console log");
}

#[test]
fn three_slashes_are_no_marker() {
    assert_eq!(patch_source_unit("\n///console.log(1)"), "\n///console.log(1)");
    assert_eq!(patch_source_unit("\n// //console.log(1)"), "\n// //console.log(1)");
    assert_eq!(patch_source_unit("///console.log(1)"), "///console.log(1)");
    assert_eq!(patch_source_unit("// //console.log(1)"), "// //console.log(1)");
}

#[test]
fn a_call_cut_short_is_left_alone() {
    assert_eq!(patch_source_unit("\n//console.lo"), "\n//console.lo");
    assert_eq!(patch_source_unit("\n//"), "\n//");
    assert_eq!(patch_source_unit("//"), "//");
    assert_eq!(patch_source_unit("//console.lo"), "//console.lo");
    assert_eq!(patch_source_unit("\n"), "\n");
    assert_eq!(patch_source_unit(""), "");
}

#[test]
fn agrees_with_the_pattern_on_many_texts() {
    let pieces = [
        "", "\n", " ", "\t", "//", "/", "console.log", "console.log(1);", "consoleXlog", "console",
        "log", "x", "\r", "\n//console.log", "\n  //  console.log(a, b);", "// console.log", "c",
        "\u{e9}", "\n\n",
    ];
    let re = pattern();
    let mut count = 0;
    for a in pieces.iter() {
        for b in pieces.iter() {
            for c in pieces.iter() {
                let text = format!("\n{}{}{}{}", a, b, c, a);
                assert_eq!(patch_source_unit(&text), re.replace_all(&text, "$1$2"), "on {:?}", text);
                let text = format!("{}{}{}", a, b, c);
                assert_eq!(patch_source_unit(&text), re.replace_all(&text, "$1$2"), "on {:?}", text);
                count += 1;
            }
        }
    }
    assert_eq!(count, 19 * 19 * 19);
}

#[test]
fn uncommenting_twice_is_uncommenting_once() {
    let texts = [
        "a\n//console.log(1);\n  //  console.log(2);\nb",
        "\n////console.log(1)",
        "\n// // console.log(1)",
        "//console.log(0)\n//console.log(1)",
    ];
    for text in texts.iter() {
        let once = patch_source_unit(text);
        assert_eq!(patch_source_unit(&once), once);
    }
}

#[test]
fn the_library_goes_in_front_of_a_flat_source() {
    let mut source = String::from("contract C {}");
    add_console_to_source(&mut source, LIBRARY);
    assert_eq!(source, format!("{}contract C {{}}", LIBRARY));
}

#[test]
fn a_flat_source_is_patched_and_keeps_its_shape() {
    let source = SourceCodeMetadata::SourceCode("contract C {\n//console.log(1);\n}".to_string());
    let patched = patch_metadata_source(&source, LIBRARY);
    assert_eq!(
        patched,
        SourceCodeMetadata::SourceCode(format!("{}contract C {{\nconsole.log(1);\n}}", LIBRARY))
    );
}

#[test]
fn units_get_the_import_and_the_library_becomes_a_unit() {
    let source = SourceCodeMetadata::Metadata {
        sources: vec![unit("A.sol", "contract A {\n  // console.log(1);\n}"), unit("B.sol", "contract B {}")],
    };
    let patched = patch_metadata_source(&source, LIBRARY);
    assert_eq!(
        patched,
        SourceCodeMetadata::Metadata {
            sources: vec![
                unit("A.sol", &format!("{}contract A {{\n   console.log(1);\n}}", IMPORT)),
                unit("B.sol", &format!("{}contract B {{}}", IMPORT)),
                unit("hardhat/console.sol", LIBRARY),
            ],
        }
    );
}

#[test]
fn a_unit_under_the_library_path_is_replaced_by_the_library() {
    let mut sources = vec![unit("hardhat/console.sol", "old"), unit("A.sol", "a")];
    add_console_to_sources(&mut sources, LIBRARY);
    assert_eq!(sources, vec![unit("hardhat/console.sol", LIBRARY), unit("A.sol", "a")]);
}

#[test]
fn units_without_metadata_pass_through() {
    let source = SourceCodeMetadata::Sources(vec![unit("A.sol", "a\n//console.log(1);")]);
    let patched = patch_metadata_source(&source, LIBRARY);
    assert_eq!(patched, SourceCodeMetadata::Sources(vec![unit("A.sol", "a\n//console.log(1);")]));
}

#[test]
fn patching_units_twice_only_doubles_the_import() {
    let source = SourceCodeMetadata::Metadata { sources: vec![unit("A.sol", "contract A {\n  // console.log(1);\n}")] };
    let once = patch_metadata_source(&source, LIBRARY);
    let twice = patch_metadata_source(&once, LIBRARY);
    assert_eq!(
        twice,
        SourceCodeMetadata::Metadata {
            sources: vec![
                unit("A.sol", &format!("{}{}contract A {{\n   console.log(1);\n}}", IMPORT, IMPORT)),
                unit("hardhat/console.sol", LIBRARY),
            ],
        }
    );
}

#[test]
fn patching_a_flat_source_twice_only_doubles_the_library() {
    let source = SourceCodeMetadata::SourceCode("contract C {\n//console.log(1);\n}".to_string());
    let once = patch_metadata_source(&source, LIBRARY);
    let twice = patch_metadata_source(&once, LIBRARY);
    assert_eq!(
        twice,
        SourceCodeMetadata::SourceCode(format!("{}{}contract C {{\nconsole.log(1);\n}}", LIBRARY, LIBRARY))
    );
}

#[test]
fn a_unit_that_begins_with_a_commented_call_is_patched_at_once() {
    let source = SourceCodeMetadata::Metadata { sources: vec![unit("A.sol", "//console.log(1);")] };
    let once = patch_metadata_source(&source, LIBRARY);
    assert_eq!(
        once,
        SourceCodeMetadata::Metadata {
            sources: vec![unit("A.sol", &format!("{}console.log(1);", IMPORT)), unit("hardhat/console.sol", LIBRARY)],
        }
    );
    let twice = patch_metadata_source(&once, LIBRARY);
    assert_eq!(
        twice,
        SourceCodeMetadata::Metadata {
            sources: vec![
                unit("A.sol", &format!("{}{}console.log(1);", IMPORT, IMPORT)),
                unit("hardhat/console.sol", LIBRARY),
            ],
        }
    );
}

#[test]
fn a_flat_source_that_begins_with_a_commented_call_is_patched_at_once() {
    let source = SourceCodeMetadata::SourceCode("//console.log(1);\nb".to_string());
    let once = patch_metadata_source(&source, LIBRARY);
    assert_eq!(once, SourceCodeMetadata::SourceCode(format!("{}console.log(1);\nb", LIBRARY)));
    let twice = patch_metadata_source(&once, LIBRARY);
    assert_eq!(twice, SourceCodeMetadata::SourceCode(format!("{}{}console.log(1);\nb", LIBRARY, LIBRARY)));
}

#[test]
fn a_library_text_that_ends_inside_a_line_joins_the_first_line_of_the_source() {
    let source = SourceCodeMetadata::SourceCode("console.log(1);".to_string());
    let once = patch_metadata_source(&source, "//");
    assert_eq!(once, SourceCodeMetadata::SourceCode("//console.log(1);".to_string()));
    let twice = patch_metadata_source(&once, "//");
    assert_eq!(twice, SourceCodeMetadata::SourceCode("//console.log(1);".to_string()));
}
