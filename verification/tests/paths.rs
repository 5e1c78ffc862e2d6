use rutsubo::protocol::paths::{
    check_request, join, resolve_within, starts_with, PathError, WorkspaceProbe,
};

/// A file system: for each path that exists, the path without links; and for
/// each link to something that does not exist, where it leads, if that is
/// known.
struct Tree(Vec<(&'static str, &'static str)>, Vec<(&'static str, Option<&'static str>)>);

fn parts(path: &str) -> Vec<Vec<u8>> {
    path.split('/').filter(|p| !p.is_empty()).map(|p| p.as_bytes().to_vec()).collect()
}

fn shown(parts: &[Vec<u8>]) -> String {
    parts.iter().map(|p| format!("/{}", String::from_utf8(p.clone()).unwrap())).collect()
}

impl Tree {
    fn canonical(&self, path: &str) -> Option<&'static str> {
        self.0.iter().find(|(p, _)| *p == path).map(|(_, c)| *c)
    }

    fn resolve(&self, workspace: &str, requested: &str) -> Result<String, PathError> {
        check_request(requested)?;
        let probe = match self.canonical(workspace) {
            Some(c) => WorkspaceProbe::Directory(parts(c)),
            None => WorkspaceProbe::Missing("No such file or directory".to_owned()),
        };
        let mut found = resolve_within(workspace, requested, probe)?;
        while found.needs_probe() && self.canonical(&shown(&found.existing)).is_none() {
            let existing = shown(&found.existing);
            if let Some((_, target)) = self.1.iter().find(|(link, _)| *link == existing) {
                return Ok(shown(&found.dangling(target.map(parts))?));
            }
            found.missing();
        }
        let existing = shown(&found.existing);
        let canonical = match self.canonical(&existing) {
            Some(c) => Ok(parts(c)),
            None => Err("gone".to_owned()),
        };
        Ok(shown(&found.finish(canonical, &existing)?))
    }
}

fn ws() -> Tree {
    let existing = vec![
        ("/tmp/x/ws", "/tmp/x/ws"),
        ("/tmp/x/ws/src", "/tmp/x/ws/src"),
        ("/tmp/x/ws/src/main.rs", "/tmp/x/ws/src/main.rs"),
        ("/tmp/x/ws/atajo", "/tmp/x/secreto"),
        ("/tmp/x/ws/atajo/clave.txt", "/tmp/x/secreto/clave.txt"),
        ("/tmp/x/ws/hermano", "/tmp/x/ws-otro"),
        ("/tmp/x/ws/hermano/x.txt", "/tmp/x/ws-otro/x.txt"),
        ("/tmp/x/ws/interno", "/tmp/x/ws/src"),
        ("/tmp/link", "/tmp/x/ws"),
    ];
    let dangling = vec![
        ("/tmp/x/ws/out", Some("/tmp/x/nada")),
        ("/tmp/x/ws/casi", Some("/tmp/x/ws-otro/nada")),
        ("/tmp/x/ws/pronto", Some("/tmp/x/ws/src/pronto")),
        ("/tmp/x/ws/ciclo", None),
    ];
    Tree(existing, dangling)
}

const WS: &str = "/tmp/x/ws";

#[test]
fn acepta_rutas_relativas_normales() {
    let p = ws().resolve(WS, "src/main.rs").unwrap();
    assert!(p.ends_with("src/main.rs"));
    assert!(p.starts_with(WS));
}

#[test]
fn acepta_rutas_que_no_existen_todavia() {
    let p = ws().resolve(WS, "src/nuevo/modulo.rs").unwrap();
    assert!(p.starts_with(WS));
    assert_eq!(p, "/tmp/x/ws/src/nuevo/modulo.rs");
}

#[test]
fn rechaza_parent_dir() {
    assert_eq!(ws().resolve(WS, "../fuera.txt"), Err(PathError::Traversal));
    assert_eq!(ws().resolve(WS, "src/../../fuera.txt"), Err(PathError::Traversal));
}

#[test]
fn rechaza_traversal_ya_decodificado() {
    assert_eq!(ws().resolve(WS, "../etc/passwd"), Err(PathError::Traversal));
}

#[test]
fn rechaza_rutas_absolutas() {
    assert_eq!(ws().resolve(WS, "/etc/passwd"), Err(PathError::AbsolutePath));
}

#[test]
fn rechaza_symlink_saliente() {
    assert_eq!(ws().resolve(WS, "atajo/clave.txt"), Err(PathError::OutsideWorkspace));
}

#[test]
fn rechaza_prefijo_enganoso() {
    assert_eq!(ws().resolve(WS, "hermano/x.txt"), Err(PathError::OutsideWorkspace));
}

#[test]
fn rechaza_workspace_inexistente() {
    let err = ws().resolve("/no/existe/jamas", "a.txt").unwrap_err();
    assert!(matches!(err, PathError::InvalidWorkspace(_)));
}

#[test]
fn curdir_es_inocuo() {
    let p = ws().resolve(WS, "./src/./main.rs").unwrap();
    assert!(p.ends_with("src/main.rs"));
}

#[test]
fn a_new_file_behind_an_escaping_link_is_refused() {
    assert_eq!(ws().resolve(WS, "atajo/nuevo.txt"), Err(PathError::OutsideWorkspace));
}

#[test]
fn links_within_the_workspace_are_followed() {
    assert_eq!(ws().resolve(WS, "interno/otro.rs").unwrap(), "/tmp/x/ws/src/otro.rs");
    assert_eq!(ws().resolve("/tmp/link", "src/main.rs").unwrap(), "/tmp/x/ws/src/main.rs");
}

#[test]
fn empty_requests_and_nul_are_invalid() {
    let empty = ws().resolve(WS, "").unwrap_err();
    assert!(matches!(&empty, PathError::Invalid(_)));
    let nul = ws().resolve(WS, "a\0b").unwrap_err();
    assert!(matches!(&nul, PathError::Invalid(_)));
    assert_ne!(empty.text(), nul.text());
}

#[test]
fn a_workspace_that_is_a_file_is_refused() {
    let err = resolve_within(
        WS,
        "a.txt",
        WorkspaceProbe::NotDirectory("/tmp/x/ws/src/main.rs".to_owned()),
    )
    .unwrap_err();
    assert_eq!(
        err,
        PathError::InvalidWorkspace("/tmp/x/ws/src/main.rs: no es un directorio".to_owned())
    );
}

#[test]
fn a_vanished_ancestor_is_invalid() {
    let found = resolve_within(WS, "a.txt", WorkspaceProbe::Directory(parts(WS))).unwrap();
    let err = found.finish(Err("gone".to_owned()), "/tmp/x/ws/a.txt").unwrap_err();
    assert_eq!(err, PathError::Invalid("/tmp/x/ws/a.txt: gone".to_owned()));
}

#[test]
fn prefixes_go_by_components() {
    assert!(starts_with(&parts("/a/b/c"), &parts("/a/b")));
    assert!(!starts_with(&parts("/a/bc"), &parts("/a/b")));
    assert!(starts_with(&parts("/a"), &parts("/a")));
    assert!(!starts_with(&parts("/a"), &parts("/a/b")));
}

#[test]
fn joining_paths() {
    assert_eq!(join("/data", "remote-ws"), "/data/remote-ws");
    assert_eq!(join("/data/", "remote-ws"), "/data/remote-ws");
    assert_eq!(join("/data", "/etc"), "/etc");
}

#[test]
fn a_link_out_is_refused_though_nothing_is_there() {
    for requested in ["out", "out/x.txt", "casi", "ciclo", "ciclo/a/b"] {
        assert_eq!(ws().resolve(WS, requested), Err(PathError::OutsideWorkspace));
    }
}

#[test]
fn a_link_to_what_is_not_there_yet_may_stay_inside() {
    assert_eq!(ws().resolve(WS, "pronto").unwrap(), "/tmp/x/ws/src/pronto");
    assert_eq!(ws().resolve(WS, "pronto/a.rs").unwrap(), "/tmp/x/ws/src/pronto/a.rs");
}

#[test]
fn the_current_directory_changes_nothing() {
    let plain = ws().resolve(WS, "src/nuevo/a.rs").unwrap();
    for dotted in ["./src/nuevo/a.rs", "src/./nuevo/./a.rs", "././src/nuevo/a.rs/."] {
        assert_eq!(ws().resolve(WS, dotted).unwrap(), plain);
    }
    assert_eq!(ws().resolve(WS, "./..").unwrap_err(), PathError::Traversal);
}
