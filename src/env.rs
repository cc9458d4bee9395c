use vstd::prelude::*;
use crate::alias::{
    expand_step, find_word_end, first_word, guarded, has_named, is_first_named, names_unique,
    position_of, str_eq, word_end, Alias, ExpandedAlias,
};
use crate::config::{ClickConfig, CompletionType, EditMode};
use crate::forward::PortForward;
use crate::objects::{clone_opt, opt_view, select_from, select_spec, KObj, KObjView, LastList, SelectOutcome};
use crate::prompt::{make_prompt, prompt_of};

verus! {

/// A cluster the session talks to: its context name and the handle used to reach it.
pub struct Cluster<K> {
    pub name: String,
    pub handle: K,
}

/// Why an operation on the cluster produced no result.
pub enum RunError<E> {
    /// No cluster is active.
    NoContext,
    /// The operation itself failed.
    Failed(E),
}

/// The state of one interactive session.
pub struct Env<K, H> {
    pub click_config: ClickConfig,
    pub quit: bool,
    pub need_new_editor: bool,
    pub kluster: Option<Cluster<K>>,
    pub namespace: Option<String>,
    pub current_object: KObj,
    pub current_object_namespace: Option<String>,
    pub last_objs: LastList,
    pub port_forwards: Vec<PortForward<H>>,
    pub prompt: String,
}

/// The aliases after removing the first one named `name`, if there is one.
pub open spec fn removed_named(s: Seq<Alias>, name: Seq<char>) -> Seq<Alias> {
    if exists|p: int| is_first_named(s, name, p) {
        s.remove(choose|p: int| is_first_named(s, name, p))
    } else {
        s
    }
}

/// The aliases after adding `a`, replacing any alias of the same name.
pub open spec fn added(s: Seq<Alias>, a: Alias) -> Seq<Alias> {
    removed_named(s, a.alias@).push(a)
}

/// The view of an optional string slice.
pub open spec fn opt_str_view(o: Option<&str>) -> Option<Seq<char>> {
    match o {
        Some(s) => Some(s@),
        None => None,
    }
}

/// Whether switching to namespace `new` clears a selection whose namespace is `cur`.
pub open spec fn namespace_conflict(obj: KObjView, cur: Option<Seq<char>>, new: Option<Seq<char>>) -> bool {
    !(obj is Empty) && cur is Some && new is Some && cur != new
}

/// What running an operation gives, from the operation's own result.
pub open spec fn lift<R, E>(res: Result<R, E>) -> Result<R, RunError<E>> {
    match res {
        Ok(v) => Ok(v),
        Err(e) => Err(RunError::Failed(e)),
    }
}

impl<K, H> Env<K, H> {
    pub open spec fn cluster_name(&self) -> Option<Seq<char>> {
        match self.kluster {
            Some(k) => Some(k.name@),
            None => None,
        }
    }

    /// The prompt as it must read for the current state.
    pub open spec fn prompt_spec(&self) -> Seq<char> {
        prompt_of(self.cluster_name(), opt_view(self.namespace), self.current_object@)
    }

    /// The session is consistent: the prompt shows the current state, alias
    /// names are unique, and an empty or node selection carries no namespace.
    pub open spec fn wf(&self) -> bool {
        &&& self.prompt@ == self.prompt_spec()
        &&& names_unique(self.click_config.aliases@)
        &&& (self.current_object@ is Empty || self.current_object@ is Node)
            ==> self.current_object_namespace is None
    }

    /// A session on `click_config`, talking to `kluster`, which is the cluster
    /// found for the configured context (none where there is no context or
    /// it could not be found).
    pub fn new(click_config: ClickConfig, kluster: Option<Cluster<K>>) -> (r: Self)
        requires
            names_unique(click_config.aliases@),
        ensures
            r.wf(),
            opt_view(r.namespace) == opt_view(click_config.namespace),
            r.kluster == kluster,
            r.current_object@ == KObjView::Empty,
            r.current_object_namespace is None,
            r.last_objs is Empty,
            r.port_forwards@.len() == 0,
            r.click_config.aliases == click_config.aliases,
            opt_view(r.click_config.namespace) == opt_view(click_config.namespace),
            opt_view(r.click_config.context) == r.cluster_name(),
            !r.quit,
            !r.need_new_editor,
    {
        let namespace = clone_opt(&click_config.namespace);
        let mut env = Env {
            click_config,
            quit: false,
            need_new_editor: false,
            kluster,
            namespace,
            current_object: KObj::Empty,
            current_object_namespace: None,
            last_objs: LastList::Empty,
            port_forwards: Vec::new(),
            prompt: String::new(),
        };
        env.save_click_config();
        env.set_prompt();
        env
    }

    /// Copies the active context and namespace into the persisted settings.
    pub fn save_click_config(&mut self)
        ensures
            opt_view(final(self).click_config.namespace) == opt_view(old(self).namespace),
            opt_view(final(self).click_config.context) == old(self).cluster_name(),
            final(self).click_config.aliases == old(self).click_config.aliases,
            final(self).click_config.editor == old(self).click_config.editor,
            final(self).click_config.terminal == old(self).click_config.terminal,
            final(self).click_config.completiontype == old(self).click_config.completiontype,
            final(self).click_config.editmode == old(self).click_config.editmode,
            final(self).kluster == old(self).kluster,
            final(self).namespace == old(self).namespace,
            final(self).current_object == old(self).current_object,
            final(self).current_object_namespace == old(self).current_object_namespace,
            final(self).last_objs == old(self).last_objs,
            final(self).port_forwards == old(self).port_forwards,
            final(self).prompt == old(self).prompt,
            final(self).quit == old(self).quit,
            final(self).need_new_editor == old(self).need_new_editor,
    {
        self.click_config.namespace = clone_opt(&self.namespace);
        self.click_config.context = match &self.kluster {
            Some(k) => Some(k.name.clone()),
            None => None,
        };
    }

    /// Recomputes the prompt from the cluster, namespace and selected object.
    pub fn set_prompt(&mut self)
        ensures
            final(self).prompt@ == final(self).prompt_spec(),
            final(self).click_config == old(self).click_config,
            final(self).kluster == old(self).kluster,
            final(self).namespace == old(self).namespace,
            final(self).current_object == old(self).current_object,
            final(self).current_object_namespace == old(self).current_object_namespace,
            final(self).last_objs == old(self).last_objs,
            final(self).port_forwards == old(self).port_forwards,
            final(self).quit == old(self).quit,
            final(self).need_new_editor == old(self).need_new_editor,
    {
        let cluster = match &self.kluster {
            Some(k) => Some(&k.name),
            None => None,
        };
        self.prompt = make_prompt(cluster, self.namespace.as_ref(), &self.current_object);
    }

    /// Switches to `kluster`, the cluster found for a context (none where the
    /// lookup failed), keeping namespace and selection.
    pub fn set_context(&mut self, kluster: Option<Cluster<K>>)
        requires
            old(self).wf(),
        ensures
            final(self).wf(),
            final(self).kluster == kluster,
            opt_view(final(self).click_config.context) == final(self).cluster_name(),
            opt_view(final(self).click_config.namespace) == opt_view(old(self).namespace),
            final(self).click_config.aliases == old(self).click_config.aliases,
            final(self).namespace == old(self).namespace,
            final(self).current_object == old(self).current_object,
            final(self).current_object_namespace == old(self).current_object_namespace,
            final(self).last_objs == old(self).last_objs,
            final(self).port_forwards == old(self).port_forwards,
    {
        self.kluster = kluster;
        self.save_click_config();
        self.set_prompt();
    }
    /// Switches the namespace. A selected object whose namespace is defined
    /// and differs from a defined new namespace is cleared; otherwise the
    /// selection stays.
    pub fn set_namespace(&mut self, namespace: Option<&str>)
        requires
            old(self).wf(),
        ensures
            final(self).wf(),
            opt_view(final(self).namespace) == opt_str_view(namespace),
            namespace_conflict(
                old(self).current_object@,
                opt_view(old(self).current_object_namespace),
                opt_str_view(namespace),
            ) ==> final(self).current_object@ == KObjView::Empty
                && final(self).current_object_namespace is None,
            !namespace_conflict(
                old(self).current_object@,
                opt_view(old(self).current_object_namespace),
                opt_str_view(namespace),
            ) ==> final(self).current_object == old(self).current_object
                && final(self).current_object_namespace == old(self).current_object_namespace,
            opt_view(final(self).click_config.namespace) == opt_str_view(namespace),
            opt_view(final(self).click_config.context) == final(self).cluster_name(),
            final(self).click_config.aliases == old(self).click_config.aliases,
            final(self).kluster == old(self).kluster,
            final(self).last_objs == old(self).last_objs,
            final(self).port_forwards == old(self).port_forwards,
    {
        let mut do_clear = false;
        if let (Some(cur), Some(new_ns)) = (&self.current_object_namespace, namespace) {
            if !matches!(self.current_object, KObj::Empty) && !str_eq(cur.as_str(), new_ns) {
                do_clear = true;
            }
        }
        if do_clear {
            self.clear_current();
        }
        self.namespace = match namespace {
            Some(n) => Some(n.to_owned()),
            None => None,
        };
        self.save_click_config();
        self.set_prompt();
    }

    /// Sets the editor used for editing objects.
    pub fn set_editor(&mut self, editor: &Option<String>)
        ensures
            final(self).click_config.editor == *editor,
            final(self).click_config.aliases == old(self).click_config.aliases,
            final(self).click_config.namespace == old(self).click_config.namespace,
            final(self).click_config.context == old(self).click_config.context,
            final(self).click_config.terminal == old(self).click_config.terminal,
            final(self).kluster == old(self).kluster,
            final(self).namespace == old(self).namespace,
            final(self).current_object == old(self).current_object,
            final(self).current_object_namespace == old(self).current_object_namespace,
            final(self).last_objs == old(self).last_objs,
            final(self).port_forwards == old(self).port_forwards,
            final(self).prompt == old(self).prompt,
    {
        self.click_config.editor = editor.clone();
    }

    /// Sets the terminal used for commands that open one.
    pub fn set_terminal(&mut self, terminal: &Option<String>)
        ensures
            final(self).click_config.terminal == *terminal,
            final(self).click_config.aliases == old(self).click_config.aliases,
            final(self).click_config.namespace == old(self).click_config.namespace,
            final(self).click_config.context == old(self).click_config.context,
            final(self).click_config.editor == old(self).click_config.editor,
            final(self).kluster == old(self).kluster,
            final(self).namespace == old(self).namespace,
            final(self).current_object == old(self).current_object,
            final(self).current_object_namespace == old(self).current_object_namespace,
            final(self).last_objs == old(self).last_objs,
            final(self).port_forwards == old(self).port_forwards,
            final(self).prompt == old(self).prompt,
    {
        self.click_config.terminal = terminal.clone();
    }

    /// Sets the completion type; the line editor must then be rebuilt.
    pub fn set_completion_type(&mut self, comptype: CompletionType)
        ensures
            final(self).click_config.completiontype == comptype,
            final(self).need_new_editor,
            final(self).click_config.aliases == old(self).click_config.aliases,
            final(self).click_config.editmode == old(self).click_config.editmode,
            final(self).kluster == old(self).kluster,
            final(self).namespace == old(self).namespace,
            final(self).current_object == old(self).current_object,
            final(self).current_object_namespace == old(self).current_object_namespace,
            final(self).last_objs == old(self).last_objs,
            final(self).port_forwards == old(self).port_forwards,
            final(self).prompt == old(self).prompt,
    {
        self.click_config.completiontype = comptype;
        self.need_new_editor = true;
    }

    /// Sets the edit mode; the line editor must then be rebuilt.
    pub fn set_edit_mode(&mut self, editmode: EditMode)
        ensures
            final(self).click_config.editmode == editmode,
            final(self).need_new_editor,
            final(self).click_config.aliases == old(self).click_config.aliases,
            final(self).click_config.completiontype == old(self).click_config.completiontype,
            final(self).kluster == old(self).kluster,
            final(self).namespace == old(self).namespace,
            final(self).current_object == old(self).current_object,
            final(self).current_object_namespace == old(self).current_object_namespace,
            final(self).last_objs == old(self).last_objs,
            final(self).port_forwards == old(self).port_forwards,
            final(self).prompt == old(self).prompt,
    {
        self.click_config.editmode = editmode;
        self.need_new_editor = true;
    }

    /// Remembers `list` as the list that numeric selection reads, replacing the previous one.
    pub fn set_lastlist(&mut self, list: LastList)
        requires
            old(self).wf(),
        ensures
            final(self).wf(),
            final(self).last_objs == list,
            final(self).click_config == old(self).click_config,
            final(self).kluster == old(self).kluster,
            final(self).namespace == old(self).namespace,
            final(self).current_object == old(self).current_object,
            final(self).current_object_namespace == old(self).current_object_namespace,
            final(self).port_forwards == old(self).port_forwards,
            final(self).prompt == old(self).prompt,
    {
        self.last_objs = list;
    }

    /// Clears the selection.
    pub fn clear_current(&mut self)
        requires
            old(self).wf(),
        ensures
            final(self).wf(),
            final(self).current_object@ == KObjView::Empty,
            final(self).current_object_namespace is None,
            final(self).click_config == old(self).click_config,
            final(self).kluster == old(self).kluster,
            final(self).namespace == old(self).namespace,
            final(self).last_objs == old(self).last_objs,
            final(self).port_forwards == old(self).port_forwards,
    {
        self.current_object = KObj::Empty;
        self.current_object_namespace = None;
        self.set_prompt();
    }

    /// Selects the object at index `num` of the last fetched list. With no
    /// list the selection stays; past the end of the list, or on an object
    /// without a name, the selection is cleared.
    pub fn set_current(&mut self, num: usize) -> (r: SelectOutcome)
        requires
            old(self).wf(),
        ensures
            final(self).wf(),
            old(self).last_objs is Empty ==> r == SelectOutcome::NoList && final(self).current_object
                == old(self).current_object && final(self).current_object_namespace == old(
                self,
            ).current_object_namespace,
            !(old(self).last_objs is Empty) ==> (r, final(self).current_object@, opt_view(
                final(self).current_object_namespace,
            )) == select_spec(old(self).last_objs, num as int),
            final(self).click_config == old(self).click_config,
            final(self).kluster == old(self).kluster,
            final(self).namespace == old(self).namespace,
            final(self).last_objs == old(self).last_objs,
            final(self).port_forwards == old(self).port_forwards,
    {
        if matches!(self.last_objs, LastList::Empty) {
            return SelectOutcome::NoList;
        }
        let (outcome, obj, ns) = select_from(&self.last_objs, num);
        self.current_object = obj;
        self.current_object_namespace = ns;
        self.set_prompt();
        outcome
    }

    /// The name of the selected pod, if a pod is selected.
    pub fn current_pod(&self) -> (r: Option<&String>)
        ensures
            match self.current_object@ {
                KObjView::Pod { name, .. } => r is Some && r->0@ == name,
                _ => r is None,
            },
    {
        if let KObj::Pod { name, .. } = &self.current_object {
            Some(name)
        } else {
            None
        }
    }
    /// Position of the alias named `alias`, if there is one.
    pub fn alias_position(&self, alias: &str) -> (r: Option<usize>)
        ensures
            match r {
                Some(p) => is_first_named(self.click_config.aliases@, alias@, p as int),
                None => !has_named(self.click_config.aliases@, alias@),
            },
    {
        position_of(&self.click_config.aliases, alias)
    }

    /// Removes the alias named `alias`; says whether there was one.
    pub fn remove_alias(&mut self, alias: &str) -> (r: bool)
        requires
            old(self).wf(),
        ensures
            final(self).wf(),
            r == has_named(old(self).click_config.aliases@, alias@),
            final(self).click_config.aliases@ == removed_named(old(self).click_config.aliases@, alias@),
            r ==> opt_view(final(self).click_config.namespace) == opt_view(old(self).namespace)
                && opt_view(final(self).click_config.context) == old(self).cluster_name(),
            !r ==> final(self).click_config == old(self).click_config,
            final(self).kluster == old(self).kluster,
            final(self).namespace == old(self).namespace,
            final(self).current_object == old(self).current_object,
            final(self).current_object_namespace == old(self).current_object_namespace,
            final(self).last_objs == old(self).last_objs,
            final(self).port_forwards == old(self).port_forwards,
            final(self).prompt == old(self).prompt,
    {
        match self.alias_position(alias) {
            Some(p) => {
                let ghost s = self.click_config.aliases@;
                proof {
                    let c = choose|q: int| is_first_named(s, alias@, q);
                    assert(c == p);
                }
                self.click_config.aliases.remove(p);
                proof {
                    lemma_remove_keeps_unique(s, p as int);
                }
                self.save_click_config();
                true
            },
            None => {
                proof {
                    let s = self.click_config.aliases@;
                    if exists|q: int| is_first_named(s, alias@, q) {
                        let q = choose|q: int| is_first_named(s, alias@, q);
                        assert(s[q].alias@ == alias@);
                    }
                }
                false
            },
        }
    }

    /// Adds `alias`, replacing any alias of the same name; it comes last.
    pub fn add_alias(&mut self, alias: Alias)
        requires
            old(self).wf(),
        ensures
            final(self).wf(),
            final(self).click_config.aliases@ == added(old(self).click_config.aliases@, alias),
            opt_view(final(self).click_config.namespace) == opt_view(old(self).namespace),
            opt_view(final(self).click_config.context) == old(self).cluster_name(),
            final(self).kluster == old(self).kluster,
            final(self).namespace == old(self).namespace,
            final(self).current_object == old(self).current_object,
            final(self).current_object_namespace == old(self).current_object_namespace,
            final(self).last_objs == old(self).last_objs,
            final(self).port_forwards == old(self).port_forwards,
            final(self).prompt == old(self).prompt,
    {
        let ghost s = self.click_config.aliases@;
        self.remove_alias(alias.alias.as_str());
        proof {
            lemma_removed_drops_name(s, alias.alias@);
        }
        self.click_config.aliases.push(alias);
        proof {
            lemma_push_keeps_unique(removed_named(s, alias.alias@), alias);
        }
        self.save_click_config();
    }

    /// Runs `f` on the active cluster. Without one nothing runs and the
    /// result is `RunError::NoContext`; a failure of `f` comes back as
    /// `RunError::Failed`.
    pub fn run_on_kluster<F, R, E>(&self, f: F) -> (r: Result<R, RunError<E>>) where
        F: FnOnce(&K) -> Result<R, E>,

        requires
            self.kluster is Some ==> f.requires((&self.kluster->0.handle,)),
        ensures
            self.kluster is None ==> r matches Err(RunError::NoContext),
            self.kluster is Some ==> exists|res: Result<R, E>|
                f.ensures((&self.kluster->0.handle,), res) && r == lift(res),
    {
        match &self.kluster {
            Some(k) => {
                let res = f(&k.handle);
                let ghost g = res;
                let r = match res {
                    Ok(v) => Ok(v),
                    Err(e) => Err(RunError::Failed(e)),
                };
                assert(f.ensures((&self.kluster->0.handle,), g) && r == lift(g));
                r
            },
            None => Err(RunError::NoContext),
        }
    }

    /// Starts tracking a port forward; it comes last.
    pub fn add_port_forward(&mut self, pf: PortForward<H>)
        requires
            old(self).wf(),
        ensures
            final(self).wf(),
            final(self).port_forwards@ == old(self).port_forwards@.push(pf),
            final(self).click_config == old(self).click_config,
            final(self).kluster == old(self).kluster,
            final(self).namespace == old(self).namespace,
            final(self).current_object == old(self).current_object,
            final(self).current_object_namespace == old(self).current_object_namespace,
            final(self).last_objs == old(self).last_objs,
            final(self).prompt == old(self).prompt,
    {
        self.port_forwards.push(pf);
    }

    /// The tracked port forwards, in the order they were added.
    pub fn get_port_forwards(&self) -> (r: &[PortForward<H>])
        ensures
            r@ == self.port_forwards@,
    {
        self.port_forwards.as_slice()
    }

    /// The port forward at index `i`, to inspect or update, if there is one.
    pub fn get_port_forward(&mut self, i: usize) -> (r: Option<&mut PortForward<H>>)
        ensures
            i < old(self).port_forwards@.len() ==> r is Some && *r->0 == old(self).port_forwards@[i as int]
                && final(self).port_forwards@ == old(self).port_forwards@.update(i as int, *final(r->0)),
            i >= old(self).port_forwards@.len() ==> r is None && final(self).port_forwards
                == old(self).port_forwards,
            final(self).click_config == old(self).click_config,
            final(self).kluster == old(self).kluster,
            final(self).namespace == old(self).namespace,
            final(self).current_object == old(self).current_object,
            final(self).current_object_namespace == old(self).current_object_namespace,
            final(self).last_objs == old(self).last_objs,
            final(self).prompt == old(self).prompt,
    {
        if i < self.port_forwards.len() {
            Some(&mut self.port_forwards[i])
        } else {
            None
        }
    }
    /// Stops tracking the port forward at index `i` and hands it back, so that
    /// its process can be terminated. An index out of range changes nothing.
    pub fn stop_port_forward(&mut self, i: usize) -> (r: Option<PortForward<H>>)
        requires
            old(self).wf(),
        ensures
            final(self).wf(),
            i < old(self).port_forwards@.len() ==> r == Some(old(self).port_forwards@[i as int])
                && final(self).port_forwards@ == old(self).port_forwards@.remove(i as int),
            i >= old(self).port_forwards@.len() ==> r is None && final(self).port_forwards@ == old(
                self,
            ).port_forwards@,
            final(self).click_config == old(self).click_config,
            final(self).kluster == old(self).kluster,
            final(self).namespace == old(self).namespace,
            final(self).current_object == old(self).current_object,
            final(self).current_object_namespace == old(self).current_object_namespace,
            final(self).last_objs == old(self).last_objs,
            final(self).prompt == old(self).prompt,
    {
        if i < self.port_forwards.len() {
            Some(self.port_forwards.remove(i))
        } else {
            None
        }
    }

    /// Stops tracking every port forward and hands them all back, in order,
    /// so that their processes can be terminated.
    pub fn stop_all_forwards(&mut self) -> (r: Vec<PortForward<H>>)
        requires
            old(self).wf(),
        ensures
            final(self).wf(),
            r@ == old(self).port_forwards@,
            final(self).port_forwards@.len() == 0,
            final(self).click_config == old(self).click_config,
            final(self).kluster == old(self).kluster,
            final(self).namespace == old(self).namespace,
            final(self).current_object == old(self).current_object,
            final(self).current_object_namespace == old(self).current_object_namespace,
            final(self).last_objs == old(self).last_objs,
            final(self).prompt == old(self).prompt,
    {
        let mut stopped: Vec<PortForward<H>> = Vec::new();
        std::mem::swap(&mut stopped, &mut self.port_forwards);
        stopped
    }

    /// One expansion step of `line`. Its first word is replaced by the alias
    /// of that name, unless `prev_word` is that same word (the word the
    /// previous step expanded), which stops an alias that maps to itself.
    pub fn try_expand_alias<'a>(&'a self, line: &'a str, prev_word: Option<&'a str>) -> (r:
        ExpandedAlias<'a>)
        ensures
            guarded(line@, opt_str_view(prev_word)) || !has_named(
                self.click_config.aliases@,
                first_word(line@),
            ) ==> r.expansion is None && r.rest@ == line@,
            !guarded(line@, opt_str_view(prev_word)) && has_named(
                self.click_config.aliases@,
                first_word(line@),
            ) ==> r.expansion is Some && (exists|p: int|
                is_first_named(self.click_config.aliases@, first_word(line@), p) && *r.expansion->0
                    == self.click_config.aliases@[p]) && r.rest@ == line@.subrange(
                word_end(line@) as int,
                line@.len() as int,
            ),
            r.expansion is None ==> expand_step(
                self.click_config.aliases@,
                line@,
                opt_str_view(prev_word),
            ) is None,
            r.expansion is Some ==> expand_step(
                self.click_config.aliases@,
                line@,
                opt_str_view(prev_word),
            ) == Some((r.expansion->0.expanded@ + r.rest@, r.expansion->0.alias@)),
    {
        let pos = find_word_end(line);
        let len = line.unicode_len();
        let word = line.substring_char(0, pos);
        let blocked = match prev_word {
            Some(pw) => str_eq(pw, word),
            None => false,
        };
        if !blocked {
            match position_of(&self.click_config.aliases, word) {
                Some(p) => {
                    proof {
                        let c = choose|q: int|
                            is_first_named(self.click_config.aliases@, first_word(line@), q);
                        assert(c == p);
                    }
                    return ExpandedAlias {
                        expansion: Some(&self.click_config.aliases[p]),
                        rest: line.substring_char(pos, len),
                    };
                },
                None => {},
            }
        }
        ExpandedAlias { expansion: None, rest: line }
    }
}

proof fn lemma_remove_keeps_unique(s: Seq<Alias>, p: int)
    requires
        names_unique(s),
        0 <= p < s.len(),
    ensures
        names_unique(s.remove(p)),
{
    let t = s.remove(p);
    assert forall|i: int, j: int|
        0 <= i < t.len() && 0 <= j < t.len() && i != j implies t[i].alias@ != t[j].alias@ by {
        let si = if i < p { i } else { i + 1 };
        let sj = if j < p { j } else { j + 1 };
        assert(t[i] == s[si] && t[j] == s[sj]);
    }
}

/// With unique names, removing `name` leaves no alias of that name and keeps names unique.
proof fn lemma_removed_drops_name(s: Seq<Alias>, name: Seq<char>)
    requires
        names_unique(s),
    ensures
        !has_named(removed_named(s, name), name),
        names_unique(removed_named(s, name)),
{
    if exists|p: int| is_first_named(s, name, p) {
        let p = choose|p: int| is_first_named(s, name, p);
        lemma_remove_keeps_unique(s, p);
        let t = s.remove(p);
        assert forall|i: int| 0 <= i < t.len() implies t[i].alias@ != name by {
            let si = if i < p { i } else { i + 1 };
            assert(t[i] == s[si]);
        }
    } else {
        assert forall|i: int| 0 <= i < s.len() implies s[i].alias@ != name by {
            if s[i].alias@ == name {
                assert(is_first_named(s, name, i));
            }
        }
    }
}

proof fn lemma_push_keeps_unique(s: Seq<Alias>, a: Alias)
    requires
        names_unique(s),
        !has_named(s, a.alias@),
    ensures
        names_unique(s.push(a)),
{
    let t = s.push(a);
    assert forall|i: int, j: int|
        0 <= i < t.len() && 0 <= j < t.len() && i != j implies t[i].alias@ != t[j].alias@ by {
        if i < s.len() && j < s.len() {
            assert(t[i] == s[i] && t[j] == s[j]);
        } else if i < s.len() {
            assert(t[i] == s[i]);
        } else if j < s.len() {
            assert(t[j] == s[j]);
        }
    }
}

/// Adding two aliases of the same name, one after the other, to aliases with
/// unique names leaves exactly one alias of that name, the second one, and
/// names still unique.
pub proof fn lemma_add_twice(s: Seq<Alias>, first: Alias, second: Alias)
    requires
        names_unique(s),
        first.alias@ == second.alias@,
    ensures
        ({
            let t = added(added(s, first), second);
            &&& names_unique(t)
            &&& t.len() > 0
            &&& t.last() == second
            &&& forall|i: int| 0 <= i < t.len() - 1 ==> t[i].alias@ != second.alias@
        }),
{
    lemma_added(s, first);
    lemma_added(added(s, first), second);
}

/// Adding an alias to aliases with unique names keeps them unique and puts
/// the new alias last, as the only one of its name.
pub proof fn lemma_added(s: Seq<Alias>, a: Alias)
    requires
        names_unique(s),
    ensures
        names_unique(added(s, a)),
        added(s, a).last() == a,
        forall|i: int| 0 <= i < added(s, a).len() - 1 ==> added(s, a)[i].alias@ != a.alias@,
{
    let r = removed_named(s, a.alias@);
    lemma_removed_drops_name(s, a.alias@);
    lemma_push_keeps_unique(r, a);
    assert forall|i: int| 0 <= i < added(s, a).len() - 1 implies added(s, a)[i].alias@ != a.alias@ by {
        assert(added(s, a)[i] == r[i]);
    }
}

} // verus!
