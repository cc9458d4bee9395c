use click::{
    Alias, ClickConfig, Cluster, CompletionType, EditMode, Env, KObj, LastList, Metadata, PodItem,
    PortForward, RawItem, RunError, SelectOutcome,
};

fn config(namespace: Option<&str>, aliases: Vec<Alias>) -> ClickConfig {
    ClickConfig {
        namespace: namespace.map(|s| s.to_string()),
        context: None,
        editor: None,
        terminal: None,
        completiontype: CompletionType::Circular,
        editmode: EditMode::Emacs,
        aliases,
    }
}

fn alias(name: &str, expanded: &str) -> Alias {
    Alias { alias: name.to_string(), expanded: expanded.to_string() }
}

fn env() -> Env<(), u32> {
    Env::new(config(None, Vec::new()), None)
}

fn pod(name: &str, ns: &str, containers: &[&str]) -> PodItem {
    PodItem {
        metadata: Metadata { name: name.to_string(), namespace: Some(ns.to_string()) },
        containers: containers.iter().map(|c| c.to_string()).collect(),
    }
}

fn pods() -> LastList {
    LastList::PodList(vec![pod("p0", "ns1", &["a"]), pod("p1", "ns1", &["b", "c"]), pod("p2", "ns1", &[])])
}

fn forward(id: u32, pod: &str) -> PortForward<u32> {
    PortForward { child: id, pod: pod.to_string(), ports: vec!["8080:80".to_string()] }
}

fn strip_ansi(s: &str) -> String {
    let mut out = String::new();
    let mut in_escape = false;
    for c in s.chars() {
        if in_escape {
            if c == 'm' {
                in_escape = false;
            }
        } else if c == '\u{1b}' {
            in_escape = true;
        } else {
            out.push(c);
        }
    }
    out
}

#[test]
fn new_session_prompt_is_all_none() {
    let e = env();
    assert_eq!(strip_ansi(&e.prompt), "[none] [none] [none] > ");
    assert!(e.prompt.contains('\u{1b}'));
}

#[test]
fn new_session_takes_namespace_from_config() {
    let e: Env<(), u32> = Env::new(config(Some("kube-system"), Vec::new()), None);
    assert_eq!(e.namespace.as_deref(), Some("kube-system"));
    assert_eq!(strip_ansi(&e.prompt), "[none] [kube-system] [none] > ");
}

#[test]
fn select_pod_by_index() {
    let mut e = env();
    e.set_lastlist(pods());
    assert_eq!(e.set_current(1), SelectOutcome::Selected);
    match &e.current_object {
        KObj::Pod { name, containers } => {
            assert_eq!(name, "p1");
            assert_eq!(containers, &vec!["b".to_string(), "c".to_string()]);
        }
        _ => panic!("expected a pod"),
    }
    assert_eq!(e.current_object_namespace.as_deref(), Some("ns1"));
    assert_eq!(e.current_pod().map(|s| s.as_str()), Some("p1"));
    assert_eq!(strip_ansi(&e.prompt), "[none] [none] [p1] > ");
}

#[test]
fn select_out_of_range_clears() {
    let mut e = env();
    e.set_lastlist(pods());
    e.set_current(0);
    assert_eq!(e.set_current(3), SelectOutcome::OutOfRange);
    assert!(matches!(e.current_object, KObj::Empty));
    assert_eq!(e.current_object_namespace, None);
    assert_eq!(e.set_current(usize::MAX), SelectOutcome::OutOfRange);
    assert!(e.current_pod().is_none());
}

#[test]
fn select_without_list_keeps_selection() {
    let mut e = env();
    assert_eq!(e.set_current(0), SelectOutcome::NoList);
    assert!(matches!(e.current_object, KObj::Empty));
}

#[test]
fn select_node_has_no_namespace() {
    let mut e = env();
    e.set_lastlist(LastList::NodeList(vec![Metadata { name: "n0".to_string(), namespace: Some("x".to_string()) }]));
    assert_eq!(e.set_current(0), SelectOutcome::Selected);
    assert!(matches!(&e.current_object, KObj::Node(n) if n == "n0"));
    assert_eq!(e.current_object_namespace, None);
    assert!(e.current_pod().is_none());
}

#[test]
fn select_replicaset_without_name_clears() {
    let mut e = env();
    e.set_lastlist(LastList::ReplicaSetList(vec![
        RawItem { name: Some("rs0".to_string()), namespace: Some("ns".to_string()) },
        RawItem { name: None, namespace: Some("ns".to_string()) },
    ]));
    assert_eq!(e.set_current(0), SelectOutcome::Selected);
    assert!(matches!(&e.current_object, KObj::ReplicaSet(n) if n == "rs0"));
    assert_eq!(e.current_object_namespace.as_deref(), Some("ns"));
    assert_eq!(e.set_current(1), SelectOutcome::MissingName);
    assert!(matches!(e.current_object, KObj::Empty));
    assert_eq!(e.current_object_namespace, None);
}

#[test]
fn select_each_named_kind() {
    let meta = || vec![Metadata { name: "m".to_string(), namespace: Some("ns".to_string()) }];
    let raw = || vec![RawItem { name: Some("r".to_string()), namespace: None }];
    let mut e = env();
    e.set_lastlist(LastList::DeploymentList(meta()));
    e.set_current(0);
    assert!(matches!(&e.current_object, KObj::Deployment(n) if n == "m"));
    e.set_lastlist(LastList::ServiceList(meta()));
    e.set_current(0);
    assert!(matches!(&e.current_object, KObj::Service(n) if n == "m"));
    e.set_lastlist(LastList::StatefulSetList(raw()));
    e.set_current(0);
    assert!(matches!(&e.current_object, KObj::StatefulSet(n) if n == "r"));
    e.set_lastlist(LastList::ConfigMapList(raw()));
    e.set_current(0);
    assert!(matches!(&e.current_object, KObj::ConfigMap(n) if n == "r"));
    e.set_lastlist(LastList::SecretList(raw()));
    e.set_current(0);
    assert!(matches!(&e.current_object, KObj::Secret(n) if n == "r"));
    e.set_lastlist(LastList::JobList(raw()));
    e.set_current(0);
    assert!(matches!(&e.current_object, KObj::Job(n) if n == "r"));
    assert_eq!(strip_ansi(&e.prompt), "[none] [none] [r] > ");
}

#[test]
fn selection_is_a_snapshot() {
    let mut e = env();
    e.set_lastlist(pods());
    e.set_current(2);
    e.set_lastlist(LastList::NodeList(Vec::new()));
    assert!(matches!(&e.current_object, KObj::Pod { name, .. } if name == "p2"));
}

#[test]
fn namespace_switch_clears_conflicting_selection() {
    let mut e = env();
    e.set_namespace(Some("a"));
    e.set_lastlist(LastList::DeploymentList(vec![Metadata { name: "d".to_string(), namespace: Some("a".to_string()) }]));
    e.set_current(0);
    e.set_namespace(Some("b"));
    assert!(matches!(e.current_object, KObj::Empty));
    assert_eq!(e.namespace.as_deref(), Some("b"));
    assert_eq!(e.click_config.namespace.as_deref(), Some("b"));
}

#[test]
fn namespace_switch_keeps_node_selection() {
    let mut e = env();
    e.set_namespace(Some("a"));
    e.set_lastlist(LastList::NodeList(vec![Metadata { name: "n".to_string(), namespace: None }]));
    e.set_current(0);
    e.set_namespace(Some("b"));
    assert!(matches!(&e.current_object, KObj::Node(n) if n == "n"));
}

#[test]
fn namespace_switch_to_same_or_none_keeps_selection() {
    let mut e = env();
    e.set_lastlist(pods());
    e.set_current(0);
    e.set_namespace(Some("ns1"));
    assert!(matches!(&e.current_object, KObj::Pod { name, .. } if name == "p0"));
    e.set_namespace(None);
    assert!(matches!(&e.current_object, KObj::Pod { name, .. } if name == "p0"));
    assert_eq!(e.namespace, None);
}

#[test]
fn end_to_end_select_then_switch_namespace() {
    let mut e = env();
    e.set_lastlist(pods());
    e.set_current(1);
    assert!(matches!(&e.current_object, KObj::Pod { name, .. } if name == "p1"));
    assert_eq!(e.current_object_namespace.as_deref(), Some("ns1"));
    e.set_namespace(Some("ns2"));
    assert!(matches!(e.current_object, KObj::Empty));
    assert_eq!(strip_ansi(&e.prompt), "[none] [ns2] [none] > ");
}

#[test]
fn expand_alias_end_to_end() {
    let mut e = env();
    e.add_alias(alias("g", "get pods"));
    let r = e.try_expand_alias("g -o wide", None);
    let a = r.expansion.expect("alias g applies");
    assert_eq!(a.alias, "g");
    assert_eq!(a.expanded, "get pods");
    assert_eq!(r.rest, " -o wide");
    assert_eq!(format!("{}{}", a.expanded, r.rest), "get pods -o wide");
}

#[test]
fn expand_splits_on_any_whitespace() {
    let mut e = env();
    e.add_alias(alias("g", "get pods"));
    let r = e.try_expand_alias("g\t-o", None);
    assert!(r.expansion.is_some());
    assert_eq!(r.rest, "\t-o");
    let r = e.try_expand_alias("g", None);
    assert!(r.expansion.is_some());
    assert_eq!(r.rest, "");
    let r = e.try_expand_alias("gg -o", None);
    assert!(r.expansion.is_none());
    assert_eq!(r.rest, "gg -o");
}

#[test]
fn expand_stops_on_previous_word() {
    let mut e = env();
    e.add_alias(alias("ls", "ls -l"));
    let r = e.try_expand_alias("ls -l", Some("ls"));
    assert!(r.expansion.is_none());
    assert_eq!(r.rest, "ls -l");
    let r = e.try_expand_alias("ls -l", Some("g"));
    assert!(r.expansion.is_some());
}

#[test]
fn expand_without_alias_returns_line() {
    let e = env();
    let r = e.try_expand_alias("pods", None);
    assert!(r.expansion.is_none());
    assert_eq!(r.rest, "pods");
    let r = e.try_expand_alias("", None);
    assert!(r.expansion.is_none());
    assert_eq!(r.rest, "");
}

#[test]
fn add_alias_twice_keeps_one() {
    let mut e = env();
    e.add_alias(alias("x", "one"));
    e.add_alias(alias("y", "why"));
    e.add_alias(alias("x", "two"));
    let names: Vec<&str> = e.click_config.aliases.iter().map(|a| a.alias.as_str()).collect();
    assert_eq!(names, vec!["y", "x"]);
    assert_eq!(e.click_config.aliases[1].expanded, "two");
    assert_eq!(e.alias_position("x"), Some(1));
    assert!(e.click_config.aliases_unique());
}

#[test]
fn remove_alias_reports_presence() {
    let mut e = env();
    e.add_alias(alias("x", "one"));
    assert!(e.remove_alias("x"));
    assert!(!e.remove_alias("x"));
    assert_eq!(e.alias_position("x"), None);
    assert!(e.click_config.aliases.is_empty());
}

#[test]
fn aliases_unique_detects_duplicates() {
    let c = config(None, vec![alias("a", "1"), alias("b", "2"), alias("a", "3")]);
    assert!(!c.aliases_unique());
    assert!(config(None, vec![alias("a", "1"), alias("b", "2")]).aliases_unique());
}

#[test]
fn stop_forward_out_of_range_changes_nothing() {
    let mut e = env();
    e.add_port_forward(forward(7, "p"));
    assert!(e.stop_port_forward(1).is_none());
    assert_eq!(e.get_port_forwards().len(), 1);
    assert!(e.get_port_forward(3).is_none());
}

#[test]
fn stop_forward_end_to_end() {
    let mut e = env();
    e.add_port_forward(forward(10, "a"));
    e.add_port_forward(forward(11, "b"));
    let stopped = e.stop_port_forward(0).expect("in range");
    assert_eq!(stopped.child, 10);
    let left = e.get_port_forwards();
    assert_eq!(left.len(), 1);
    assert_eq!(left[0].child, 11);
    assert_eq!(left[0].pod, "b");
    let all = e.stop_all_forwards();
    assert_eq!(all.len(), 1);
    assert!(e.get_port_forwards().is_empty());
}

#[test]
fn stop_all_on_empty_set() {
    let mut e = env();
    assert!(e.stop_all_forwards().is_empty());
    assert!(e.get_port_forwards().is_empty());
}

#[test]
fn get_port_forward_updates_in_place() {
    let mut e = env();
    e.add_port_forward(forward(1, "a"));
    e.get_port_forward(0).expect("in range").ports.push("9090:90".to_string());
    assert_eq!(e.get_port_forwards()[0].ports.len(), 2);
}

#[test]
fn run_without_context_reports_it() {
    let e = env();
    let r: Result<u32, RunError<String>> = e.run_on_kluster(|_k: &()| Ok(1));
    assert!(matches!(r, Err(RunError::NoContext)));
}

#[test]
fn run_on_cluster_passes_results_and_failures() {
    let mut e: Env<u32, u32> = Env::new(config(Some("ns"), Vec::new()), None);
    e.set_context(Some(Cluster { name: "prod".to_string(), handle: 5 }));
    assert_eq!(e.click_config.context.as_deref(), Some("prod"));
    assert_eq!(strip_ansi(&e.prompt), "[prod] [ns] [none] > ");
    let ok: Result<u32, RunError<String>> = e.run_on_kluster(|k: &u32| Ok(*k + 1));
    assert!(matches!(ok, Ok(6)));
    let bad: Result<u32, RunError<String>> = e.run_on_kluster(|_k: &u32| Err("boom".to_string()));
    assert!(matches!(bad, Err(RunError::Failed(ref m)) if m == "boom"));
    e.set_context(None);
    assert_eq!(e.click_config.context, None);
    assert_eq!(e.namespace.as_deref(), Some("ns"));
}

#[test]
fn settings_setters() {
    let mut e = env();
    e.set_editor(&Some("vim".to_string()));
    e.set_terminal(&Some("xterm".to_string()));
    assert!(!e.need_new_editor);
    e.set_completion_type(CompletionType::List);
    e.set_edit_mode(EditMode::Vi);
    assert!(e.need_new_editor);
    assert_eq!(e.click_config.editor.as_deref(), Some("vim"));
    assert_eq!(e.click_config.terminal.as_deref(), Some("xterm"));
    assert_eq!(e.click_config.completiontype, CompletionType::List);
    assert_eq!(e.click_config.editmode, EditMode::Vi);
}

#[test]
fn clear_current_empties_selection() {
    let mut e = env();
    e.set_lastlist(pods());
    e.set_current(0);
    e.clear_current();
    assert!(matches!(e.current_object, KObj::Empty));
    assert_eq!(strip_ansi(&e.prompt), "[none] [none] [none] > ");
}

fn expand_fully(e: &Env<(), u32>, line: &str) -> (String, usize) {
    let mut current = line.to_string();
    let mut prev: Option<String> = None;
    let mut steps = 0;
    loop {
        let next = {
            let r = e.try_expand_alias(&current, prev.as_deref());
            r.expansion.map(|a| (a.alias.clone(), format!("{}{}", a.expanded, r.rest)))
        };
        match next {
            Some((word, line)) => {
                prev = Some(word);
                current = line;
                steps += 1;
            }
            None => return (current, steps),
        }
    }
}

#[test]
fn expansion_chain_comes_to_rest() {
    let mut e = env();
    e.add_alias(alias("k", "kk get"));
    e.add_alias(alias("kk", "kubectl"));
    assert_eq!(expand_fully(&e, "k pods"), ("kubectl get pods".to_string(), 2));
}

#[test]
fn self_referencing_alias_expands_once() {
    let mut e = env();
    e.add_alias(alias("ls", "ls -l"));
    assert_eq!(expand_fully(&e, "ls -a"), ("ls -l -a".to_string(), 1));
}
