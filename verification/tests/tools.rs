use rutsubo::protocol::diff::FileDiff;
use rutsubo::protocol::paths::PathError;
use rutsubo::tools::edit_file::EditFile;
use rutsubo::tools::read_file::ReadFile;
use rutsubo::tools::run_shell::{exited, RunShell, ShellOutcome, TIMEOUT_S};
use rutsubo::tools::search::{Hits, Search};
use rutsubo::tools::write_file::{WriteFailure, WriteFile};
use rutsubo::tools::{path_rejected, str_arg, Tool, ToolRegistry, ToolResult, MAX_OUTPUT_BYTES};

#[test]
fn an_output_within_the_limit_is_kept() {
    let full = "x".repeat(MAX_OUTPUT_BYTES);
    let r = ToolResult::ok(full.clone());
    assert!(r.ok && !r.truncated);
    assert_eq!(r.output, full);
}

#[test]
fn an_output_above_the_limit_is_cut_at_a_character() {
    // One byte and then characters of two bytes each: the limit falls inside one.
    let full = format!("x{}", "é".repeat(MAX_OUTPUT_BYTES));
    let r = ToolResult::fail(full.clone());
    assert!(!r.ok && r.truncated);
    assert_eq!(r.output.len(), MAX_OUTPUT_BYTES - 1);
    assert!(full.starts_with(&r.output));
}

#[test]
fn arguments_are_read_from_json() {
    assert_eq!(str_arg(r#"{"path":"a"}"#, "path"), Ok("a".to_owned()));
    let missing = Err("falta el argumento obligatorio `path`".to_owned());
    assert_eq!(str_arg(r#"{"path":""}"#, "path"), missing);
    assert_eq!(str_arg(r#"{"path":3}"#, "path"), missing);
    assert_eq!(str_arg("[]", "path"), missing);
    assert_eq!(str_arg("no es json", "path"), missing);
}

#[test]
fn a_rejected_path_is_a_failed_result() {
    let r = path_rejected(&PathError::Traversal);
    assert!(!r.ok);
    assert!(r.output.contains(&PathError::Traversal.text()));
    assert_eq!(r.diff, None);
}

#[test]
fn the_five_tools_have_five_names() {
    let names: std::collections::BTreeSet<&str> =
        [Tool::ReadFile, Tool::WriteFile, Tool::EditFile, Tool::Search, Tool::RunShell]
            .iter()
            .map(|t| t.name())
            .collect();
    assert_eq!(names.len(), 5);
    assert!(!Tool::ReadFile.requires_approval());
    assert!(!Tool::Search.requires_approval());
    assert!(Tool::WriteFile.requires_approval());
    assert!(Tool::EditFile.requires_approval());
    assert!(Tool::RunShell.requires_approval());
}

#[test]
fn registries_differ_by_the_shell() {
    let all = ToolRegistry::standard();
    let server = ToolRegistry::remote();
    assert_eq!(all.get("run_shell"), Some(Tool::RunShell));
    assert_eq!(server.get("run_shell"), None);
    assert_eq!(server.get("write_file"), Some(Tool::WriteFile));
    assert_eq!(all.get("nada"), None);
    assert_eq!(all.schemas().len(), 5);
    assert_eq!(server.schemas().len(), 4);
    assert_eq!(ToolRegistry::empty().get("search"), None);
    let mut one = ToolRegistry::empty();
    one.register(Tool::Search);
    one.register(Tool::Search);
    assert_eq!(one.schemas().len(), 1);
}

#[test]
fn schemas_are_json_and_sorted_by_name() {
    let schemas = ToolRegistry::standard().schemas();
    for s in &schemas {
        assert!(rutsubo::json::compact(&s.parameters).is_some(), "{}", s.name);
        assert!(!s.description.is_empty());
    }
    let names: Vec<&str> = schemas.iter().map(|s| s.name.as_str()).collect();
    let mut sorted = names.clone();
    sorted.sort();
    assert_eq!(names, sorted);
}

#[test]
fn reading_a_file() {
    assert_eq!(ReadFile.request(r#"{"path":"a.txt"}"#), Ok("a.txt".to_owned()));
    assert!(ReadFile.request("{}").is_err());
    let r = ReadFile.execute("a.txt", Ok("hola".to_owned()));
    assert!(r.ok);
    assert_eq!(r.output, "hola");
    let r = ReadFile.execute("a.txt", Err("no existe".to_owned()));
    assert!(!r.ok);
    assert_eq!(r.output, "no se pudo leer `a.txt`: no existe");
}

#[test]
fn writing_a_file() {
    let req = WriteFile.request(r#"{"path":"a.txt","content":"uno\ndos\n"}"#).unwrap();
    assert_eq!(req.content, "uno\ndos\n");
    assert_eq!(
        WriteFile.request(r#"{"path":"a.txt"}"#).unwrap_err().output,
        "falta el argumento obligatorio `content`"
    );
    // An empty content is a content.
    assert_eq!(WriteFile.request(r#"{"path":"a.txt","content":""}"#).unwrap().content, "");
    let r = WriteFile.execute(&req, "uno\n", Ok(()));
    assert!(r.ok);
    let d = r.diff.unwrap();
    assert_eq!(d, FileDiff::compute("a.txt", "uno\n", "uno\ndos\n"));
    assert_eq!((d.additions, d.deletions), (1, 0));
    let r = WriteFile.execute(&req, "", Err(WriteFailure::Directory("sin permiso".to_owned())));
    assert_eq!(r.output, "no se pudo crear el directorio: sin permiso");
    let r = WriteFile.execute(&req, "", Err(WriteFailure::File("lleno".to_owned())));
    assert_eq!(r.output, "no se pudo escribir `a.txt`: lleno");
    assert!(!r.ok && r.diff.is_none());
}

#[test]
fn editing_replaces_the_one_occurrence() {
    let req = EditFile.request(r#"{"path":"a","old_str":"bb","new_str":"X"}"#).unwrap();
    let edited = EditFile.edit(&req, &Ok("a bb c".to_owned())).unwrap();
    assert_eq!(edited, "a X c");
    let r = EditFile.execute("a", "a bb c", &edited, Ok(()));
    assert!(r.ok);
    assert!(r.diff.is_some());
    let r = EditFile.execute("a", "a bb c", &edited, Err("lleno".to_owned()));
    assert_eq!(r.output, "no se pudo escribir `a`: lleno");
}

#[test]
fn editing_wants_exactly_one_occurrence() {
    let req = EditFile.request(r#"{"path":"a","old_str":"bb","new_str":""}"#).unwrap();
    let none = EditFile.edit(&req, &Ok("abc".to_owned())).unwrap_err();
    assert_eq!(none.output, "`old_str` no aparece en `a`");
    let two = EditFile.edit(&req, &Ok("bb bb".to_owned())).unwrap_err();
    assert_eq!(two.output, "`old_str` es ambiguo: 2 coincidencias en `a` (debe ser única)");
    let overlap = EditFile.edit(&req, &Ok("bbb".to_owned())).unwrap_err();
    assert_eq!(overlap.output, "`old_str` es ambiguo: 2 coincidencias en `a` (debe ser única)");
    let both = EditFile.edit(&req, &Ok("bbbb".to_owned())).unwrap_err();
    assert_eq!(both.output, "`old_str` es ambiguo: 2 coincidencias en `a` (debe ser única)");
    assert_eq!(EditFile.edit(&req, &Ok("bb".to_owned())).unwrap(), "");
    let unread = EditFile.edit(&req, &Err("no existe".to_owned())).unwrap_err();
    assert_eq!(unread.output, "no se pudo leer `a`: no existe");
    assert_eq!(
        EditFile.request(r#"{"path":"a","old_str":"b"}"#).unwrap_err().output,
        "falta el argumento obligatorio `new_str`"
    );
    assert_eq!(
        EditFile.request(r#"{"path":"a","new_str":"b"}"#).unwrap_err().output,
        "falta el argumento obligatorio `old_str`"
    );
}

#[test]
fn searching_has_a_limit() {
    let req = Search.request(r#"{"pattern":"x"}"#).unwrap();
    assert_eq!((req.max_results, req.path), (50, None));
    let req = Search.request(r#"{"pattern":"x","max_results":900,"path":"src"}"#).unwrap();
    assert_eq!((req.max_results, req.path), (200, Some("src".to_owned())));
    let req = Search.request(r#"{"pattern":"x","max_results":3}"#).unwrap();
    assert_eq!(req.max_results, 3);
    assert!(Search.request("{}").is_err());
}

#[test]
fn a_pattern_must_be_a_regular_expression() {
    assert_eq!(Search.check_pattern("fn [a-z]+"), None);
    let r = Search.check_pattern("(").unwrap();
    assert!(!r.ok);
    assert!(r.output.starts_with("patrón inválido: "));
    assert!(r.output.len() > "patrón inválido: ".len());
}

#[test]
fn hits_are_listed_up_to_the_limit() {
    let mut hits = Hits::new(2);
    assert!(hits.take("src/a.rs", 3, "  let x = 1;  \n"));
    assert!(!hits.full());
    let one = Search.execute(Ok(Hits { max_results: 2, lines: hits.lines.clone() }));
    assert_eq!(one.output, hits.lines[0]);
    assert!(one.output.starts_with("src/a.rs:3:"));
    assert!(hits.take("src/b.rs", 4, "y"));
    assert!(hits.full());
    assert!(!hits.take("src/c.rs", 5, "z"));
    assert_eq!(hits.lines.len(), 2);
    let r = Search.execute(Ok(hits));
    assert!(r.output.ends_with("\n… (resultados truncados)"));
    assert_eq!(Search.execute(Ok(Hits::new(5))).output, "sin coincidencias");
    assert_eq!(Search.execute(Err("roto".to_owned())).output, "búsqueda fallida: roto");
}

#[test]
fn running_a_command() {
    assert_eq!(RunShell.request(r#"{"cmd":"ls"}"#), Ok("ls".to_owned()));
    assert!(RunShell.request("{}").is_err());
    assert_eq!(RunShell.env_whitelist(), vec!["PATH", "HOME", "LANG"]);
    assert_eq!(
        RunShell.execute(ShellOutcome::NotStarted("x".to_owned())).output,
        "no se pudo lanzar el comando: x"
    );
    assert_eq!(
        RunShell.execute(ShellOutcome::TimedOut).output,
        format!("timeout: el comando superó {TIMEOUT_S} s y fue terminado")
    );
    assert_eq!(
        RunShell.execute(ShellOutcome::Failed("x".to_owned())).output,
        "fallo de ejecución: x"
    );
    let bytes = RunShell.execute(ShellOutcome::Exited {
        stdout: vec![b'a', 0xff],
        stderr: vec![],
        success: true,
        code: Some(0),
    });
    assert!(bytes.ok);
    assert_eq!(bytes.output, "a\u{fffd}");
    let failed = exited(String::new(), "boom".to_owned(), false, Some(3));
    assert!(!failed.ok);
    assert!(failed.output.starts_with("exit 3\n"));
    assert!(failed.output.ends_with("boom"));
    assert!(exited(String::new(), String::new(), false, None).output.starts_with("exit "));
}
