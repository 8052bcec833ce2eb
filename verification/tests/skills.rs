use panel_rust::json::JsonValue;
use panel_rust::model::{SkillEntry, SkillScope};
use panel_rust::skills::{
    collect_skills_snapshot, open_skill_search_result, searched_skills, skills_project_dir,
};
use panel_rust::skills_mcp::files::{
    collect_skill_files, list_skill_files_result, resolve_skill_file, walk_path, DirNode, Looked,
};
use panel_rust::skills_mcp::tools::{
    context_skills, list_skills_result, read_skill_file_result, read_skill_result, skill_by_name,
    unknown_skill_result, FileRead, SkillRead, MAX_SKILL_FILE_BYTES,
};
use panel_rust::skills_mcp::{
    handle_request, parse_args, read_request, response, tools_list_result, Handled, RpcError,
    Server, ToolCall,
};

fn entry(name: &str, scope: SkillScope) -> SkillEntry {
    SkillEntry {
        name: name.to_owned(),
        description: format!("{name} process"),
        scope,
        started_from: None,
        path: format!("/skills/{name}"),
    }
}

fn text_content(result: &JsonValue) -> String {
    result.get("content").unwrap().as_array().unwrap()[0]
        .get("text")
        .unwrap()
        .as_str()
        .expect("text MCP response")
        .to_string()
}

fn is_error(result: &JsonValue) -> bool {
    result.get("isError") == Some(&JsonValue::Bool(true))
}

fn release_tree() -> Vec<DirNode> {
    vec![
        DirNode::File { name: "SKILL.md".to_owned() },
        DirNode::Directory {
            name: "scripts".to_owned(),
            children: vec![DirNode::File { name: "release.sh".to_owned() }],
        },
        DirNode::Directory {
            name: "references".to_owned(),
            children: vec![DirNode::File { name: "checklist.md".to_owned() }],
        },
    ]
}

#[test]
fn supporting_files_are_live_discoverable_and_readable() {
    let listed = text_content(&list_skill_files_result(&Ok(release_tree())));
    let files = JsonValue::parse(&listed).unwrap();
    let files: Vec<&str> = files.as_array().unwrap().iter().map(|f| f.as_str().unwrap()).collect();
    assert_eq!(files, vec!["references/checklist.md", "scripts/release.sh"]);

    let path = "references/checklist.md";
    let walk = walk_path("/skills/release", path);
    let looks = vec![Looked::Directory, Looked::File];
    assert_eq!(
        resolve_skill_file(path, &walk, &looks).unwrap(),
        "/skills/release/references/checklist.md"
    );
    let read = Ok(FileRead::Measured {
        bytes: 20,
        read: Ok("# Release checklist\n".to_owned()),
    });
    assert_eq!(
        text_content(&read_skill_file_result(path, &read)),
        "# Release checklist\n"
    );
}

#[test]
fn supporting_file_reader_rejects_path_traversal() {
    let walk = walk_path("/skills/release", "../outside.txt");
    let error = resolve_skill_file("../outside.txt", &walk, &vec![]).unwrap_err();
    assert!(error.contains("traversal"));
}

#[test]
fn reading_a_directory_path_returns_an_actionable_error_not_raw_eisdir() {
    let walk = walk_path("/skills/release", "references");
    let refused = resolve_skill_file("references", &walk, &vec![Looked::Directory]).unwrap_err();
    let result = read_skill_file_result("references", &Err(refused));
    assert!(is_error(&result));
    let text = text_content(&result);
    assert!(
        text.contains("regular file"),
        "expected the clean is_file rejection, got: {text}"
    );
    assert!(
        !text.contains("os error"),
        "must not leak the raw OS EISDIR string, got: {text}"
    );
}

#[test]
fn read_skill_guards_a_directory_shaped_skill_md() {
    let entries = vec![entry("weird", SkillScope::Project)];
    assert_eq!(skill_by_name(&entries, "weird"), Ok(0));
    let result = read_skill_result(&SkillRead::Directory {
        shown: "\"/skills/weird/SKILL.md\"".to_owned(),
    });
    assert!(is_error(&result));
    assert!(!text_content(&result).contains("os error"));
}

#[test]
fn links_and_large_files_are_not_given() {
    let walk = walk_path("/s", "a/b");
    assert_eq!(walk.paths, vec!["/s/a", "/s/a/b"]);
    assert_eq!(
        resolve_skill_file("a/b", &walk, &vec![Looked::Symlink]).unwrap_err(),
        "symbolic links are not available through skills"
    );
    assert_eq!(
        resolve_skill_file(
            "a/b",
            &walk,
            &vec![Looked::Directory, Looked::Failed { error: "gone".to_owned() }]
        )
        .unwrap_err(),
        "failed to access \"a/b\": gone"
    );
    assert!(resolve_skill_file("", &walk_path("/s", ""), &vec![]).is_err());
    assert!(resolve_skill_file("/etc/passwd", &walk_path("/s", "/etc/passwd"), &vec![]).is_err());
    let large = Ok(FileRead::Measured {
        bytes: MAX_SKILL_FILE_BYTES + 1,
        read: Ok("secret".to_owned()),
    });
    let result = read_skill_file_result("big.bin", &large);
    assert!(is_error(&result));
    assert_eq!(
        text_content(&result),
        "\"big.bin\" exceeds the 524288-byte skill file limit"
    );
}

#[test]
fn listed_names_lead_downwards_and_links_are_passed_over() {
    let tree = vec![
        DirNode::Symlink { name: "link".to_owned() },
        DirNode::Other { name: "pipe".to_owned() },
        DirNode::Directory {
            name: "a".to_owned(),
            children: vec![
                DirNode::Directory {
                    name: "b".to_owned(),
                    children: vec![DirNode::File { name: "c".to_owned() }],
                },
                DirNode::File { name: "SKILL.md".to_owned() },
            ],
        },
    ];
    let mut files = Vec::new();
    collect_skill_files(&tree, "", &mut files);
    files.sort();
    assert_eq!(files, vec!["a/SKILL.md", "a/b/c"]);
    let failed = list_skill_files_result(&Err("denied".to_owned()));
    assert_eq!(text_content(&failed), "failed to list skill files: denied");
}

#[test]
fn a_server_answers_with_the_id_it_was_asked_with() {
    let request = read_request(r#"{"jsonrpc":"2.0","id":7,"method":"tools/list"}"#).unwrap();
    assert_eq!(request.method, "tools/list");
    let handled = handle_request(Server::Skills, &request.method, request.params.as_ref());
    match handled {
        Ok(Handled::Answer(answer)) => {
            assert_eq!(answer, tools_list_result(Server::Skills));
            let reply = response(request.id, Ok(answer));
            assert_eq!(reply.get("id"), Some(&JsonValue::Int(7)));
            assert!(reply.get("error").is_none());
        },
        _ => panic!("an answer was owed"),
    }
    assert!(read_request(r#"{"jsonrpc":"2.0","method":"notifications/initialized"}"#).is_none());
    assert!(read_request("not json").is_none());
    assert!(read_request("   ").is_none());
    let refused = response(
        JsonValue::Null,
        Err(RpcError { code: -32601, message: "no".to_owned() }),
    );
    assert_eq!(
        refused.to_text(),
        r#"{"jsonrpc":"2.0","id":null,"error":{"code":-32601,"message":"no"}}"#
    );
}

#[test]
fn only_listed_tools_are_called() {
    let params = JsonValue::parse(r#"{"name":"read_skill","arguments":{"name":"release"}}"#).unwrap();
    match handle_request(Server::Skills, "tools/call", Some(&params)) {
        Ok(Handled::Call(ToolCall::ReadSkill { name })) => assert_eq!(name, "release"),
        _ => panic!("a call was owed"),
    }
    let files = JsonValue::parse(r#"{"name":"list_skill_files","arguments":{"name":"a"}}"#).unwrap();
    assert!(handle_request(Server::Skills, "tools/call", Some(&files)).is_err());
    assert!(matches!(
        handle_request(Server::Snapflowd, "tools/call", Some(&files)),
        Ok(Handled::Call(ToolCall::ListSkillFiles { .. }))
    ));
    let missing = JsonValue::parse(r#"{"name":"read_skill"}"#).unwrap();
    match handle_request(Server::Skills, "tools/call", Some(&missing)) {
        Err(error) => assert_eq!(error.message, "missing required 'name' argument"),
        _ => panic!("an error was owed"),
    }
    assert!(handle_request(Server::Skills, "resources/list", None).is_err());
    match handle_request(Server::Snapflowd, "initialize", None) {
        Ok(Handled::Answer(answer)) => {
            assert_eq!(
                answer.get("serverInfo").unwrap().get("name"),
                Some(&JsonValue::Text("snapflowd-mcp".to_owned()))
            );
        },
        _ => panic!("an answer was owed"),
    }
}

#[test]
fn arguments_name_the_directories() {
    let args: Vec<String> = ["--project-dir", "/p", "--other", "--global-dir", "/g"]
        .iter()
        .map(|s| s.to_string())
        .collect();
    let read = parse_args(&args).unwrap();
    assert_eq!(read.global_dir, "/g");
    assert_eq!(read.project_dir.as_deref(), Some("/p"));
    assert!(parse_args(&vec![]).is_none());
}

#[test]
fn skills_are_listed_with_where_they_belong() {
    let skills = context_skills(
        vec![entry("a", SkillScope::Global)],
        vec![entry("b", SkillScope::Project)],
    );
    let listed = text_content(&list_skills_result(&skills));
    assert_eq!(
        listed,
        r#"[{"name":"a","description":"a process","scope":"global","startedFrom":null},{"name":"b","description":"b process","scope":"project","startedFrom":null}]"#
    );
    assert_eq!(
        text_content(&unknown_skill_result("no\"pe")),
        r#"no skill named "no\"pe" found"#
    );
    assert_eq!(
        skill_by_name(&skills, "zz"),
        Err("no skill named \"zz\" found".to_owned())
    );
}

#[test]
fn a_search_opens_the_first_skill_by_name() {
    let skills = collect_skills_snapshot(
        vec![entry("Release", SkillScope::Global)],
        vec![entry("Alpha", SkillScope::Project), entry("beta", SkillScope::Project)],
    );
    assert_eq!(skills.len(), 3);
    let opened = open_skill_search_result(&skills, " PROCESS ").unwrap();
    assert_eq!(skills[opened].name, "Alpha");
    assert_eq!(open_skill_search_result(&skills, "missing"), None);
    assert_eq!(
        skills_project_dir(&Some("/p/a.mlt".to_owned())).as_deref(),
        Some("/p")
    );
}

#[test]
fn a_search_leaves_out_the_skills_that_are_not_shown() {
    let global = || vec![entry("alpha", SkillScope::Global)];
    let project = || vec![entry("beta", SkillScope::Project)];
    let shown = searched_skills(global(), project(), true);
    assert_eq!(shown[open_skill_search_result(&shown, "").unwrap()].name, "alpha");
    let hidden = searched_skills(global(), project(), false);
    assert_eq!(hidden.len(), 1);
    assert_eq!(hidden[open_skill_search_result(&hidden, "").unwrap()].name, "beta");
}
