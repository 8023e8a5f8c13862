use jpas::codec::{from_str, to_string, to_string_pretty};
use jpas::commands::init::{init, ConfigFile};
use jpas::commands::open::{open, open_finish, OpenOpts};
use jpas::commands::query::{query, QueryOpts};
use jpas::commands::save::{save, save_finish, SaveOpts};
use jpas::commands::WriteFile;
use jpas::document::Document;
use jpas::gpg::{self, Exit, Invocation};
use jpas::Error;

const HEADER: &str = "-----BEGIN PGP MESSAGE-----";
const FOOTER: &str = "-----END PGP MESSAGE-----";

fn armor(plain: &str) -> String {
    let hex: String = plain.bytes().map(|b| format!("{:02x}", b)).collect();
    format!("{}\n\n{}\n{}\n", HEADER, hex, FOOTER)
}

/// Stands in for the `gpg` program: "encrypts" to the bytes in hex between
/// the armor lines, and "decrypts" that back.
fn run(request: &Invocation) -> Result<Exit, std::io::Error> {
    assert_eq!(request.program, "gpg");
    let done = |stdout: String| Exit { code: Some(0), stdout: stdout.into_bytes(), stderr: Vec::new() };
    if request.args.contains(&"--encrypt") {
        return Ok(done(armor(&request.input)));
    }
    let lines: Vec<&str> = request.input.lines().collect();
    if lines.len() != 4 || lines[0] != HEADER || lines[3] != FOOTER {
        return Ok(Exit {
            code: Some(2),
            stdout: Vec::new(),
            stderr: b"gpg: no valid OpenPGP data found.\n".to_vec(),
        });
    }
    let bytes: Vec<u8> = lines[2]
        .as_bytes()
        .chunks(2)
        .map(|pair| u8::from_str_radix(std::str::from_utf8(pair).unwrap(), 16).unwrap())
        .collect();
    Ok(done(String::from_utf8(bytes).unwrap()))
}

fn text(s: &str) -> Document {
    Document::String(s.to_string())
}

fn object(entries: Vec<(&str, Document)>) -> Document {
    Document::Object(entries.into_iter().map(|(k, v)| (k.to_string(), v)).collect())
}

/// The example entry, with `secrets` as given and `$file` where one is given.
fn entry(secrets: Document, file: Option<&str>) -> Document {
    let mut entries = vec![
        ("type", text("ssh")),
        ("use public key", text("00:11:22:..")),
        ("server", text("192.168.1.101")),
        ("known hosts", text("something")),
        ("secrets", secrets),
    ];
    if let Some(path) = file {
        entries.push(("$file", text(path)));
    }
    object(entries)
}

fn password() -> Document {
    object(vec![("password", text("swordfish"))])
}

/// The text of the entry as it lies on disk.
fn on_disk() -> String {
    to_string_pretty(&entry(text(&armor(r#"{"password":"swordfish"}"#)), None)).unwrap()
}

fn same(a: &Document, b: &Document) -> bool {
    to_string(a).unwrap() == to_string(b).unwrap()
}

fn field<'a>(document: &'a Document, key: &str) -> Option<&'a Document> {
    match document {
        Document::Object(entries) => entries.iter().rev().find(|(k, _)| k == key).map(|(_, v)| v),
        _ => None,
    }
}

fn open_all(file: Option<&str>, contents: &str) -> Result<Document, Error> {
    let opening = open(OpenOpts { file: file.map(|f| f.to_string()) }, Ok(contents.to_string()))?;
    let ran = run(&opening.request);
    open_finish(opening, ran)
}

fn save_all(file: Option<&str>, contents: &str) -> Result<WriteFile, Error> {
    let saving = save(SaveOpts { file: file.map(|f| f.to_string()) }, Ok(contents.to_string()))?;
    let ran = run(&saving.request);
    save_finish(saving, ran)
}

#[test]
fn test_open_from_file() {
    let examplefile = "./tests/basic/Example.ssh.json";
    let json = open_all(Some(examplefile), &on_disk()).unwrap();

    assert!(same(&json, &entry(password(), Some(examplefile))));
    assert_eq!(field(&json, "$file"), Some(&text(examplefile)));
    assert_eq!(field(&json, "secrets"), Some(&password()));
}

#[test]
fn test_open_from_stdin() {
    let json = open_all(None, &on_disk()).unwrap();

    assert!(same(&json, &entry(password(), None)));
    assert_eq!(field(&json, "$file"), None);
}

#[test]
fn test_save_from_stdin() {
    let outputfile = "./tests/basic/test_save_from_stdin.temp.ssh.json";
    let examplejson = to_string_pretty(&entry(password(), Some(outputfile))).unwrap();

    let written = save_all(None, &examplejson).unwrap();
    assert_eq!(written.file, outputfile);

    let json = from_str(&written.contents).unwrap();
    let secrets = match field(&json, "secrets") {
        Some(Document::String(s)) => s.clone(),
        other => panic!("unexpected: {:?}", other),
    };
    assert_eq!(secrets.starts_with("-----BEGIN PGP MESSAGE-----"), true);
    assert!(same(&json, &entry(text(&secrets), None)));
}

#[test]
fn test_save_to_file() {
    let outputfile = "./tests/basic/test_save_to_file.temp.ssh.json";
    let examplejson = to_string_pretty(&entry(password(), None)).unwrap();

    let written = save_all(Some(outputfile), &examplejson).unwrap();
    assert_eq!(written.file, outputfile);

    let json = from_str(&written.contents).unwrap();
    let secrets = match field(&json, "secrets") {
        Some(Document::String(s)) => s.clone(),
        other => panic!("unexpected: {:?}", other),
    };
    assert_eq!(secrets.starts_with("-----BEGIN PGP MESSAGE-----"), true);
    assert!(same(&json, &entry(text(&secrets), None)));
}

#[test]
fn save_writes_the_same_with_either_destination() {
    let by_origin =
        save_all(None, &to_string(&entry(password(), Some("out.json"))).unwrap()).unwrap();
    let by_argument =
        save_all(Some("out.json"), &to_string(&entry(password(), None)).unwrap()).unwrap();
    assert_eq!(by_origin.file, "out.json");
    assert_eq!(by_argument.file, "out.json");
    assert_eq!(by_origin.contents, by_argument.contents);
}

#[test]
fn save_writes_indented_text_with_the_message() {
    let written = save_all(Some("out.json"), r#"{"secrets":{"password":"swordfish"}}"#).unwrap();
    let message = armor(r#"{"password":"swordfish"}"#);
    assert_eq!(
        written.contents,
        format!("{{\n  \"secrets\": {}\n}}", to_string(&text(&message)).unwrap())
    );
}

#[test]
fn save_prefers_the_argument_to_the_origin() {
    let contents = to_string(&entry(password(), Some("named.json"))).unwrap();
    let written = save_all(Some("given.json"), &contents).unwrap();
    assert_eq!(written.file, "given.json");
    assert_eq!(field(&from_str(&written.contents).unwrap(), "$file"), None);
}

#[test]
fn save_then_open_gives_the_secrets_back() {
    let contents = to_string(&entry(password(), None)).unwrap();
    let written = save_all(Some("out.json"), &contents).unwrap();
    let json = open_all(Some(&written.file), &written.contents).unwrap();
    assert_eq!(field(&json, "secrets"), Some(&password()));
    assert!(same(&json, &entry(password(), Some("out.json"))));
}

#[test]
fn open_makes_the_request_before_gpg_runs() {
    let opening = open(OpenOpts { file: Some("e.json".to_string()) }, Ok(on_disk())).unwrap();
    assert_eq!(opening.request.args, vec!["--no-tty", "--batch", "--decrypt"]);
    assert_eq!(opening.request.input, armor(r#"{"password":"swordfish"}"#));
    assert_eq!(field(&opening.document, "$file"), Some(&text("e.json")));
    assert_eq!(
        field(&opening.document, "secrets"),
        Some(&text(&armor(r#"{"password":"swordfish"}"#)))
    );
}

#[test]
fn open_writes_over_an_origin_in_the_file() {
    let contents = to_string(&entry(text(&armor("1")), Some("stale.json"))).unwrap();
    let json = open_all(Some("fresh.json"), &contents).unwrap();
    assert_eq!(field(&json, "$file"), Some(&text("fresh.json")));
}

#[test]
fn open_from_input_keeps_an_origin() {
    let contents = to_string(&entry(text(&armor("1")), Some("kept.json"))).unwrap();
    let json = open_all(None, &contents).unwrap();
    assert_eq!(field(&json, "$file"), Some(&text("kept.json")));
}

#[test]
fn open_refuses_what_is_no_entry() {
    assert!(matches!(open_all(None, "not json"), Err(Error::Json(_))));
    assert!(matches!(open_all(Some("f.json"), ""), Err(Error::Json(_))));
    assert!(matches!(open_all(Some("f.json"), "[]"), Err(Error::RequiresJsonObject)));
    assert!(matches!(open_all(None, "[]"), Err(Error::RequiresJsonObject)));
    assert!(matches!(open_all(None, "\"text\""), Err(Error::RequiresJsonObject)));
    assert!(matches!(open_all(None, "{}"), Err(Error::SecretsPropertyMissing)));
    assert!(matches!(
        open_all(Some("f.json"), r#"{"secrets":{"password":"swordfish"}}"#),
        Err(Error::SecretsAlreadyDecrypted)
    ));
    assert!(matches!(
        open_all(None, r#"{"secrets":12}"#),
        Err(Error::SecretsMustBeString)
    ));
}

#[test]
fn open_hands_a_failure_of_gpg_on() {
    match open_all(None, r#"{"secrets":"swordfish"}"#) {
        Err(Error::Gpg(gpg::Error::ExitCode(code, message))) => {
            assert_eq!(code, 2);
            assert_eq!(message, "gpg: no valid OpenPGP data found.\n");
        }
        other => panic!("unexpected: {:?}", other),
    }

    let opening = open(OpenOpts { file: None }, Ok(on_disk())).unwrap();
    let killed = Exit { code: None, stdout: Vec::new(), stderr: Vec::new() };
    assert!(matches!(
        open_finish(opening, Ok(killed)),
        Err(Error::Gpg(gpg::Error::SignalTerminated))
    ));

    let opening = open(OpenOpts { file: None }, Ok(on_disk())).unwrap();
    let failure = std::io::Error::new(std::io::ErrorKind::NotFound, "no gpg");
    assert!(matches!(
        open_finish(opening, Err(failure)),
        Err(Error::Gpg(gpg::Error::Io(_)))
    ));
}

#[test]
fn open_hands_a_failed_read_on() {
    let missing = std::io::Error::new(std::io::ErrorKind::NotFound, "no such file");
    match open(OpenOpts { file: Some("gone.json".to_string()) }, Err(missing)) {
        Err(Error::Io(e)) => {
            assert_eq!(e.kind(), std::io::ErrorKind::NotFound);
            assert_eq!(e.to_string(), "no such file");
        }
        other => panic!("unexpected: {:?}", other),
    }
}

#[test]
fn save_hands_a_failed_read_on() {
    let broken = std::io::Error::new(std::io::ErrorKind::InvalidData, "stream did not contain valid UTF-8");
    match save(SaveOpts { file: Some("out.json".to_string()) }, Err(broken)) {
        Err(Error::Io(e)) => assert_eq!(e.kind(), std::io::ErrorKind::InvalidData),
        other => panic!("unexpected: {:?}", other),
    }
}

#[test]
fn open_refuses_plain_text_that_is_no_json() {
    let contents = to_string(&entry(text(&armor("swordfish")), None)).unwrap();
    assert!(matches!(open_all(None, &contents), Err(Error::Json(_))));
}

#[test]
fn save_refuses_what_is_no_entry() {
    assert!(matches!(save_all(Some("out.json"), "{"), Err(Error::Json(_))));
    assert!(matches!(save_all(None, "[]"), Err(Error::RequiresJsonObject)));
    assert!(matches!(save_all(Some("out.json"), "[]"), Err(Error::RequiresJsonObject)));
    assert!(matches!(save_all(Some("out.json"), "null"), Err(Error::RequiresJsonObject)));
    assert!(matches!(
        save_all(Some("out.json"), r#"{"type":"ssh"}"#),
        Err(Error::SecretsPropertyMissing)
    ));
}

#[test]
fn save_needs_a_destination() {
    let contents = to_string(&entry(password(), None)).unwrap();
    assert!(matches!(save_all(None, &contents), Err(Error::FileMissing)));
    assert!(matches!(
        save_all(None, r#"{"secrets":{},"$file":null}"#),
        Err(Error::FileMissing)
    ));
    assert!(matches!(
        save_all(None, r#"{"secrets":{},"$file":["out.json"]}"#),
        Err(Error::FileMustBeString)
    ));
}

#[test]
fn save_settles_the_destination_before_it_looks_at_secrets() {
    assert!(matches!(save_all(None, r#"{"type":"ssh"}"#), Err(Error::FileMissing)));
}

#[test]
fn save_writes_nothing_where_gpg_fails() {
    let contents = to_string(&entry(password(), Some("out.json"))).unwrap();

    let saving = save(SaveOpts { file: None }, Ok(contents.clone())).unwrap();
    let failed = Exit { code: Some(2), stdout: armor("x").into_bytes(), stderr: b"no key\n".to_vec() };
    match save_finish(saving, Ok(failed)) {
        Err(Error::Gpg(gpg::Error::ExitCode(code, message))) => {
            assert_eq!(code, 2);
            assert_eq!(message, "no key\n");
        }
        other => panic!("unexpected: {:?}", other),
    }

    let saving = save(SaveOpts { file: None }, Ok(contents.clone())).unwrap();
    let killed = Exit { code: None, stdout: armor("x").into_bytes(), stderr: Vec::new() };
    assert!(matches!(
        save_finish(saving, Ok(killed)),
        Err(Error::Gpg(gpg::Error::SignalTerminated))
    ));

    let saving = save(SaveOpts { file: None }, Ok(contents.clone())).unwrap();
    let failure = std::io::Error::new(std::io::ErrorKind::BrokenPipe, "pipe");
    assert!(matches!(
        save_finish(saving, Err(failure)),
        Err(Error::Gpg(gpg::Error::Io(_)))
    ));
}

#[test]
fn save_makes_the_request_before_gpg_runs() {
    let contents = to_string(&entry(password(), Some("out.json"))).unwrap();
    let saving = save(SaveOpts { file: None }, Ok(contents.clone())).unwrap();
    assert_eq!(saving.file, "out.json");
    assert_eq!(saving.request.input, r#"{"password":"swordfish"}"#);
    assert_eq!(
        saving.request.args,
        vec![
            "--no-tty",
            "--batch",
            "--default-recipient-self",
            "--armor",
            "--sign",
            "--encrypt"
        ]
    );
    assert_eq!(field(&saving.document, "$file"), None);
    assert_eq!(field(&saving.document, "secrets"), Some(&password()));
}

#[test]
fn save_encrypts_secrets_of_any_kind() {
    let written = save_all(Some("out.json"), r#"{"secrets":"already text"}"#).unwrap();
    let json = from_str(&written.contents).unwrap();
    assert_eq!(field(&json, "secrets"), Some(&text(&armor("\"already text\""))));
}

#[test]
fn init_writes_an_empty_configuration() {
    let written = init(false).unwrap();
    assert_eq!(written.file, "jpas.json");
    assert_eq!(written.contents, "{\n  \"save_other_gpg_recipients\": null\n}");
}

#[test]
fn init_twice_fails() {
    assert!(init(false).is_ok());
    assert!(matches!(init(true), Err(Error::InitAlreadyDone)));
}

#[test]
fn configuration_lists_its_recipients() {
    let config = ConfigFile {
        save_other_gpg_recipients: Some(vec!["alice".to_string(), "bob".to_string()]),
    };
    assert_eq!(
        config.to_document(),
        object(vec![(
            "save_other_gpg_recipients",
            Document::Array(vec![text("alice"), text("bob")])
        )])
    );
    assert_eq!(
        to_string(&config.to_document()).unwrap(),
        r#"{"save_other_gpg_recipients":["alice","bob"]}"#
    );

    let none = ConfigFile { save_other_gpg_recipients: None };
    assert_eq!(none.to_document(), object(vec![("save_other_gpg_recipients", Document::Null)]));
    let empty = ConfigFile { save_other_gpg_recipients: Some(Vec::new()) };
    assert_eq!(
        empty.to_document(),
        object(vec![("save_other_gpg_recipients", Document::Array(Vec::new()))])
    );
}

#[test]
fn query_is_not_there_yet() {
    assert!(matches!(query(QueryOpts { url: None }), Err(Error::Unimplemented)));
    assert!(matches!(
        query(QueryOpts { url: Some("https://example.org".to_string()) }),
        Err(Error::Unimplemented)
    ));
}
