//! The project manifest: the project's name and the names of the modules
//! installed into it, in the order of their installation.

use vstd::prelude::*;
use vstd::string::*;
use crate::errors::ManifestError;
use crate::json::{
    items_view, json_printed, json_read, lemma_list_view, lemma_object_view, members_view,
    parse_json, print_json, Json, JsonView,
};

verus! {

/// A project manifest. A module may occur more than once in `modules`: nothing
/// keeps a package from being installed twice.
#[derive(Debug, PartialEq, Eq)]
pub struct Manifest {
    pub name: String,
    pub modules: Vec<String>,
}

/// The mathematical value of a [`Manifest`].
pub ghost struct ManifestView {
    pub name: Seq<char>,
    pub modules: Seq<Seq<char>>,
}

impl View for Manifest {
    type V = ManifestView;

    open spec fn view(&self) -> ManifestView {
        ManifestView { name: self.name@, modules: self.modules@.map_values(|m: String| m@) }
    }
}

/// The manifest of a fresh project called `name`: no module is installed.
pub open spec fn initial_manifest(name: Seq<char>) -> ManifestView {
    ManifestView { name, modules: Seq::empty() }
}

/// The manifest `m` after `module` was installed: the module stands last, and
/// everything else is as before.
pub open spec fn with_module(m: ManifestView, module: Seq<char>) -> ManifestView {
    ManifestView { name: m.name, modules: m.modules.push(module) }
}

/// The manifest `m` after the modules `added` were installed one after the
/// other.
pub open spec fn with_modules(m: ManifestView, added: Seq<Seq<char>>) -> ManifestView
    decreases added.len(),
{
    if added.len() == 0 {
        m
    } else {
        with_module(with_modules(m, added.drop_last()), added.last())
    }
}

/// Creates the manifest of a fresh project. Nothing of an earlier manifest of
/// the project goes into it.
pub fn initialize(project_name: String) -> (manifest: Manifest)
    ensures
        manifest@ == initial_manifest(project_name@),
{
    let manifest = Manifest { name: project_name, modules: Vec::new() };
    assert(manifest@.modules =~= Seq::empty());
    manifest
}

impl Manifest {
    /// Records `module` as installed, after the modules recorded before.
    pub fn append_module(&mut self, module: String)
        ensures
            final(self)@ == with_module(old(self)@, module@),
    {
        self.modules.push(module);
        assert(self@.modules =~= old(self)@.modules.push(module@));
    }
}

/// Installing modules one after the other keeps the project's name, keeps the
/// modules that were there, in their order, and puts the new ones behind them
/// in the order of their installation.
pub proof fn lemma_modules_are_appended_in_order(m: ManifestView, added: Seq<Seq<char>>)
    ensures
        with_modules(m, added).name == m.name,
        with_modules(m, added).modules == m.modules + added,
    decreases added.len(),
{
    if added.len() == 0 {
        assert(m.modules + added =~= m.modules);
    } else {
        lemma_modules_are_appended_in_order(m, added.drop_last());
        assert(m.modules + added =~= (m.modules + added.drop_last()).push(added.last()));
    }
}

/// The manifest of a fresh start holds no module, whatever the project held
/// before: it lists exactly the modules installed since.
pub proof fn lemma_fresh_manifest_lists_later_modules_only(name: Seq<char>, added: Seq<Seq<char>>)
    ensures
        initial_manifest(name).modules.len() == 0,
        with_modules(initial_manifest(name), added).modules == added,
{
    lemma_modules_are_appended_in_order(initial_manifest(name), added);
    assert(Seq::<Seq<char>>::empty() + added =~= added);
}

/// The key of the project's name in the manifest document.
pub open spec fn name_key() -> Seq<char> {
    "name"@
}

/// The key of the list of modules in the manifest document.
pub open spec fn modules_key() -> Seq<char> {
    "modules"@
}

/// The document that a manifest is written as: an object with the name and
/// the list of modules.
pub open spec fn manifest_doc(m: ManifestView) -> JsonView {
    JsonView::Object(
        seq![
            (name_key(), JsonView::Text(m.name)),
            (modules_key(), JsonView::List(m.modules.map_values(|s: Seq<char>| JsonView::Text(s)))),
        ],
    )
}

/// The place of the member `key` among the members of an object: that of
/// the last member with this key, as a later member of an object replaces an
/// earlier one.
pub open spec fn last_member(members: Seq<(Seq<char>, JsonView)>, key: Seq<char>) -> Option<int>
    decreases members.len(),
{
    if members.len() == 0 {
        None
    } else if members.last().0 == key {
        Some(members.len() - 1)
    } else {
        last_member(members.drop_last(), key)
    }
}

/// The value of the member `key` of an object.
pub open spec fn member(members: Seq<(Seq<char>, JsonView)>, key: Seq<char>) -> Option<JsonView> {
    match last_member(members, key) {
        Some(i) => Some(members[i].1),
        None => None,
    }
}

/// The last member with a key is a member with this key, and none follows it;
/// where there is none, no member has the key.
pub proof fn lemma_last_member(members: Seq<(Seq<char>, JsonView)>, key: Seq<char>)
    ensures
        match last_member(members, key) {
            Some(i) => 0 <= i < members.len() && members[i].0 == key && forall|j: int|
                i < j < members.len() ==> (#[trigger] members[j]).0 != key,
            None => forall|j: int| 0 <= j < members.len() ==> (#[trigger] members[j]).0 != key,
        },
    decreases members.len(),
{
    if members.len() > 0 && members.last().0 != key {
        lemma_last_member(members.drop_last(), key);
        match last_member(members.drop_last(), key) {
            Some(i) => {
                assert forall|j: int| i < j < members.len() implies (#[trigger] members[j]).0
                    != key by {
                    if j < members.len() - 1 {
                        assert(members.drop_last()[j] == members[j]);
                    }
                }
            },
            None => {
                assert forall|j: int| 0 <= j < members.len() implies (#[trigger] members[j]).0
                    != key by {
                    if j < members.len() - 1 {
                        assert(members.drop_last()[j] == members[j]);
                    }
                }
            },
        }
    }
}

/// Two objects with the same keys in the same places have each key's member in
/// the same place.
pub proof fn lemma_last_member_by_keys(
    a: Seq<(Seq<char>, JsonView)>,
    b: Seq<(Seq<char>, JsonView)>,
    key: Seq<char>,
)
    requires
        a.len() == b.len(),
        forall|j: int| 0 <= j < a.len() ==> (#[trigger] a[j]).0 == b[j].0,
    ensures
        last_member(a, key) == last_member(b, key),
    decreases a.len(),
{
    if a.len() > 0 {
        assert(a.last().0 == b.last().0) by {
            assert(a[a.len() - 1].0 == b[a.len() - 1].0);
        }
        if a.last().0 != key {
            assert forall|j: int| 0 <= j < a.drop_last().len() implies (#[trigger] a.drop_last()[j]).0
                == b.drop_last()[j].0 by {
                assert(a[j].0 == b[j].0);
            }
            lemma_last_member_by_keys(a.drop_last(), b.drop_last(), key);
        }
    }
}

/// The strings that a list holds, if it holds nothing else.
pub open spec fn texts_of(items: Seq<JsonView>) -> Option<Seq<Seq<char>>> {
    if forall|i: int| 0 <= i < items.len() ==> items[i] is Text {
        Some(items.map_values(|item: JsonView| item->Text_0))
    } else {
        None
    }
}

/// The manifest that a document holds: the document is an object, its `name`
/// is a string and its `modules` a list of strings. Other members are passed
/// over.
pub open spec fn manifest_in(doc: JsonView) -> Option<ManifestView> {
    match doc {
        JsonView::Object(members) => match (
            member(members, name_key()),
            member(members, modules_key()),
        ) {
            (Some(JsonView::Text(name)), Some(JsonView::List(items))) => match texts_of(items) {
                Some(modules) => Some(ManifestView { name, modules }),
                None => None,
            },
            _ => None,
        },
        _ => None,
    }
}

/// The document of a manifest holds that manifest.
pub proof fn lemma_manifest_doc_holds_manifest(m: ManifestView)
    ensures
        manifest_in(manifest_doc(m)) == Some(m),
{
    reveal_strlit("name");
    reveal_strlit("modules");
    let members = manifest_doc(m)->Object_0;
    assert(name_key() != modules_key()) by {
        assert(name_key().len() == 4);
        assert(modules_key().len() == 7);
    }
    assert(members.drop_last() =~= seq![(name_key(), JsonView::Text(m.name))]);
    assert(last_member(members, modules_key()) == Some(1int));
    assert(last_member(members.drop_last(), name_key()) == Some(0int));
    assert(last_member(members, name_key()) == Some(0int));
    let items = m.modules.map_values(|s: Seq<char>| JsonView::Text(s));
    assert(texts_of(items)->0 =~= m.modules);
}

/// Builds the document of a manifest.
pub fn manifest_to_json(manifest: &Manifest) -> (doc: Json)
    ensures
        doc@ == manifest_doc(manifest@),
{
    let mut items: Vec<Json> = Vec::new();
    let mut i: usize = 0;
    while i < manifest.modules.len()
        invariant
            i <= manifest.modules.len(),
            items.len() == i,
            forall|j: int| 0 <= j < i ==> #[trigger] items@[j]@ == JsonView::Text(manifest.modules@[j]@),
        decreases manifest.modules.len() - i,
    {
        items.push(Json::Text(manifest.modules[i].clone()));
        i = i + 1;
    }
    let list = Json::List(items);
    assert(list@ == JsonView::List(manifest@.modules.map_values(|s: Seq<char>| JsonView::Text(s))))
        by {
        lemma_list_view(items);
        assert(items_view(items) =~= manifest@.modules.map_values(
            |s: Seq<char>| JsonView::Text(s),
        ));
    }
    let name = Json::Text(manifest.name.clone());
    let mut members: Vec<(String, Json)> = Vec::new();
    members.push(("name".to_owned(), name));
    members.push(("modules".to_owned(), list));
    let doc = Json::Object(members);
    assert(doc@ == manifest_doc(manifest@)) by {
        reveal_strlit("name");
        reveal_strlit("modules");
        lemma_object_view(members);
        assert(members_view(members) =~= manifest_doc(manifest@)->Object_0);
    }
    doc
}

/// Finds the place of the member `key` among the members of an object.
fn find_member(members: &Vec<(String, Json)>, key: &str) -> (found: Option<usize>)
    ensures
        match found {
            Some(i) => i < members.len() && last_member(members_view(*members), key@) == Some(
                i as int,
            ),
            None => last_member(members_view(*members), key@) is None,
        },
{
    let key_text = key.to_owned();
    let ghost all = members_view(*members);
    let mut found: Option<usize> = None;
    let mut i: usize = 0;
    proof {
        lemma_object_view(*members);
    }
    assert(all.take(0) =~= Seq::empty());
    while i < members.len()
        invariant
            i <= members.len(),
            all == members_view(*members),
            all.len() == members.len(),
            forall|j: int| 0 <= j < all.len() ==> (#[trigger] all[j]) == (members@[j].0@, members@[j].1@),
            key_text@ == key@,
            match found {
                Some(at) => at < i && last_member(all.take(i as int), key@) == Some(at as int),
                None => last_member(all.take(i as int), key@) is None,
            },
        decreases members.len() - i,
    {
        assert(all.take(i + 1).drop_last() =~= all.take(i as int));
        assert(all.take(i + 1).last() == (members@[i as int].0@, members@[i as int].1@));
        if members[i].0 == key_text {
            found = Some(i);
        }
        i = i + 1;
    }
    assert(all.take(i as int) =~= all);
    found
}

/// Reads a manifest out of a document.
pub fn manifest_of_json(doc: &Json) -> (r: Result<Manifest, ManifestError>)
    ensures
        match manifest_in(doc@) {
            Some(m) => r is Ok && r->Ok_0@ == m,
            None => r == Err::<Manifest, ManifestError>(ManifestError::Malformed),
        },
{
    let members = match doc {
        Json::Object(members) => members,
        _ => {
            return Err(ManifestError::Malformed);
        },
    };
    proof {
        reveal_strlit("name");
        reveal_strlit("modules");
    }
    proof {
        lemma_object_view(*members);
    }
    let name = match find_member(members, "name") {
        Some(at) => match &members[at].1 {
            Json::Text(name) => name,
            _ => {
                return Err(ManifestError::Malformed);
            },
        },
        None => {
            return Err(ManifestError::Malformed);
        },
    };
    let items = match find_member(members, "modules") {
        Some(at) => match &members[at].1 {
            Json::List(items) => items,
            _ => {
                return Err(ManifestError::Malformed);
            },
        },
        None => {
            return Err(ManifestError::Malformed);
        },
    };
    let ghost views = items_view(*items);
    let mut modules: Vec<String> = Vec::new();
    let mut i: usize = 0;
    proof {
        lemma_list_view(*items);
    }
    assert(manifest_in(doc@) == match texts_of(views) {
        Some(modules) => Some(ManifestView { name: name@, modules }),
        None => None,
    });
    while i < items.len()
        invariant
            i <= items.len(),
            views == items_view(*items),
            views.len() == items.len(),
            forall|j: int| 0 <= j < views.len() ==> (#[trigger] views[j]) == items@[j]@,
            texts_of(views) is None ==> manifest_in(doc@) is None,
            modules.len() == i,
            forall|j: int| 0 <= j < i ==> views[j] is Text,
            forall|j: int| 0 <= j < i ==> #[trigger] modules@[j]@ == views[j]->Text_0,
        decreases items.len() - i,
    {
        assert(views[i as int] == items@[i as int]@);
        match &items[i] {
            Json::Text(module) => {
                modules.push(module.clone());
            },
            _ => {
                assert(!(views[i as int] is Text));
                return Err(ManifestError::Malformed);
            },
        }
        i = i + 1;
    }
    let manifest = Manifest { name: name.clone(), modules };
    assert(manifest@.modules =~= texts_of(views)->0);
    Ok(manifest)
}

/// The text of a manifest, if it can be written.
pub open spec fn manifest_text(m: ManifestView) -> Option<Seq<char>> {
    json_printed(manifest_doc(m))
}

/// The manifest that `text` holds, if it holds one.
pub open spec fn manifest_read(text: Seq<char>) -> Option<ManifestView> {
    match json_read(text) {
        Some(doc) => manifest_in(doc),
        None => None,
    }
}

/// Writes a manifest as indented JSON text.
pub fn render_manifest(manifest: &Manifest) -> (r: Result<String, ManifestError>)
    ensures
        match manifest_text(manifest@) {
            Some(text) => r is Ok && r->Ok_0@ == text,
            None => r == Err::<String, ManifestError>(ManifestError::Malformed),
        },
{
    let doc = manifest_to_json(manifest);
    match print_json(&doc) {
        Some(text) => Ok(text),
        None => Err(ManifestError::Malformed),
    }
}

/// Reads a manifest from JSON text.
pub fn parse_manifest(text: &str) -> (r: Result<Manifest, ManifestError>)
    ensures
        match manifest_read(text@) {
            Some(m) => r is Ok && r->Ok_0@ == m,
            None => r == Err::<Manifest, ManifestError>(ManifestError::Malformed),
        },
{
    match parse_json(text) {
        Some(doc) => manifest_of_json(&doc),
        None => Err(ManifestError::Malformed),
    }
}

/// The document `doc` after `module` was installed: the list that is its
/// member `modules` holds `module` behind what it held, and every other member
/// is as before. There is none where the document is not an object, or has no
/// member `modules`, or that member is not a list.
pub open spec fn doc_with_module(doc: JsonView, module: Seq<char>) -> Option<JsonView> {
    match doc {
        JsonView::Object(members) => match last_member(members, modules_key()) {
            Some(i) => match members[i].1 {
                JsonView::List(items) => Some(
                    JsonView::Object(
                        members.update(
                            i,
                            (modules_key(), JsonView::List(items.push(JsonView::Text(module)))),
                        ),
                    ),
                ),
                _ => None,
            },
            None => None,
        },
        _ => None,
    }
}

/// Records `module` in a manifest document, behind the modules that the
/// document lists. Nothing else in the document changes.
pub fn append_to_document(doc: Json, module: String) -> (r: Result<Json, ManifestError>)
    ensures
        match doc_with_module(doc@, module@) {
            Some(after) => r is Ok && r->Ok_0@ == after,
            None => r == Err::<Json, ManifestError>(ManifestError::Malformed),
        },
{
    let mut members = match doc {
        Json::Object(members) => members,
        _ => {
            return Err(ManifestError::Malformed);
        },
    };
    let ghost before = members;
    proof {
        reveal_strlit("modules");
        lemma_object_view(before);
    }
    let at = match find_member(&members, "modules") {
        Some(at) => at,
        None => {
            return Err(ManifestError::Malformed);
        },
    };
    let (key, value) = members.remove(at);
    let mut items = match value {
        Json::List(items) => items,
        _ => {
            return Err(ManifestError::Malformed);
        },
    };
    let ghost items_before = items;
    items.push(Json::Text(module));
    let ghost items_after = items;
    members.insert(at, (key, Json::List(items)));
    let after = Json::Object(members);
    proof {
        lemma_object_view(members);
        lemma_list_view(items_before);
        lemma_list_view(items_after);
        let old_view = members_view(before);
        let old_items = items_view(items_before);
        assert(items_view(items_after) =~= old_items.push(JsonView::Text(module@)));
        lemma_last_member(old_view, modules_key());
        assert(old_view[at as int] == (before@[at as int].0@, before@[at as int].1@));
        assert forall|j: int| 0 <= j < members@.len() implies (#[trigger] members_view(
            members,
        )[j]) == old_view.update(
            at as int,
            (modules_key(), JsonView::List(old_items.push(JsonView::Text(module@)))),
        )[j] by {
            if j != at {
                assert(old_view[j] == (before@[j].0@, before@[j].1@));
            }
        }
        assert(members_view(members) =~= old_view.update(
            at as int,
            (modules_key(), JsonView::List(old_items.push(JsonView::Text(module@)))),
        ));
    }
    Ok(after)
}

/// A document that holds a manifest takes every module, and then holds the
/// manifest with that module appended: the name and the modules that were
/// there stay, in their order.
pub proof fn lemma_document_append_is_manifest_append(doc: JsonView, module: Seq<char>)
    requires
        manifest_in(doc) is Some,
    ensures
        doc_with_module(doc, module) is Some,
        manifest_in(doc_with_module(doc, module)->0) == Some(
            with_module(manifest_in(doc)->0, module),
        ),
{
    reveal_strlit("name");
    reveal_strlit("modules");
    let members = doc->Object_0;
    lemma_last_member(members, modules_key());
    lemma_last_member(members, name_key());
    let at = last_member(members, modules_key())->0;
    let items = members[at].1->List_0;
    let after = members.update(
        at,
        (modules_key(), JsonView::List(items.push(JsonView::Text(module)))),
    );
    assert(name_key() != modules_key()) by {
        assert(name_key().len() == 4);
        assert(modules_key().len() == 7);
    }
    lemma_last_member_by_keys(members, after, modules_key());
    lemma_last_member_by_keys(members, after, name_key());
    let pushed = items.push(JsonView::Text(module));
    assert(texts_of(pushed) is Some) by {
        assert forall|i: int| 0 <= i < pushed.len() implies pushed[i] is Text by {
            if i < items.len() {
                assert(pushed[i] == items[i]);
            }
        }
    }
    assert(texts_of(pushed)->0 =~= texts_of(items)->0.push(module));
}

/// Recording a module in a document changes one member only: the document
/// has as many members as before, each with its key and in its place, and each
/// but the list of modules with its value.
pub proof fn lemma_document_append_keeps_members(doc: JsonView, module: Seq<char>, j: int)
    requires
        doc_with_module(doc, module) is Some,
        0 <= j < doc->Object_0.len(),
    ensures
        doc is Object,
        doc_with_module(doc, module)->0 is Object,
        doc_with_module(doc, module)->0->Object_0.len() == doc->Object_0.len(),
        doc_with_module(doc, module)->0->Object_0[j].0 == doc->Object_0[j].0,
        Some(j) != last_member(doc->Object_0, modules_key()) ==> doc_with_module(
            doc,
            module,
        )->0->Object_0[j] == doc->Object_0[j],
        Some(j) == last_member(doc->Object_0, modules_key()) ==> doc_with_module(
            doc,
            module,
        )->0->Object_0[j].1 == JsonView::List(
            doc->Object_0[j].1->List_0.push(JsonView::Text(module)),
        ),
{
    lemma_last_member(doc->Object_0, modules_key());
}

/// The new text of the manifest file after `package` was installed, given the
/// file's contents, or `None` for a file that is not there.
pub open spec fn updated_text(contents: Option<Seq<char>>, package: Seq<char>) -> Result<
    Seq<char>,
    ManifestError,
> {
    match contents {
        None => Err(ManifestError::NotFound),
        Some(text) => match json_read(text) {
            None => Err(ManifestError::Malformed),
            Some(doc) => match doc_with_module(doc, package) {
                None => Err(ManifestError::Malformed),
                Some(after) => match json_printed(after) {
                    Some(new_text) => Ok(new_text),
                    None => Err(ManifestError::Malformed),
                },
            },
        },
    }
}

/// The characters of a text that may be missing.
pub open spec fn text_view(contents: Option<&str>) -> Option<Seq<char>> {
    match contents {
        Some(text) => Some(text@),
        None => None,
    }
}

/// Computes what the manifest file holds after `package` was installed.
/// `contents` is what the file holds now, `None` if there is no such file. The
/// file is read in full as a JSON document; the package is recorded behind
/// the modules that the document lists, whatever else it holds; and the whole
/// document is written anew. The file is refused as malformed where it is not
/// JSON, not an object, or without a list as its member `modules`.
pub fn update(contents: Option<&str>, package: &str) -> (r: Result<String, ManifestError>)
    ensures
        match updated_text(text_view(contents), package@) {
            Ok(text) => r is Ok && r->Ok_0@ == text,
            Err(e) => r == Err::<String, ManifestError>(e),
        },
{
    let text = match contents {
        Some(text) => text,
        None => {
            return Err(ManifestError::NotFound);
        },
    };
    let doc = match parse_json(text) {
        Some(doc) => doc,
        None => {
            return Err(ManifestError::Malformed);
        },
    };
    let after = match append_to_document(doc, package.to_owned()) {
        Ok(after) => after,
        Err(e) => {
            return Err(e);
        },
    };
    match print_json(&after) {
        Some(text) => Ok(text),
        None => Err(ManifestError::Malformed),
    }
}

} // verus!
