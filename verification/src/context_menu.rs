//! The Explorer right-click menu for .heic/.heif files: the per-user registry
//! entries that add "Convert to JPEG" / "Convert to PNG", and the ones that
//! are removed to take them away again.
//!
//! The registry itself is written by the caller; this module says what to write.

use crate::text::strings_view;
use vstd::prelude::*;

verus! {

/// The registry key under which the shell verbs of a file extension live.
pub open spec fn spec_shell_key(ext: Seq<char>) -> Seq<char> {
    "Software\\Classes\\SystemFileAssociations\\"@ + ext + "\\shell"@
}

/// The registry key of one verb of one extension.
pub open spec fn spec_verb_key(ext: Seq<char>, verb: Seq<char>) -> Seq<char> {
    spec_shell_key(ext) + "\\"@ + verb
}

/// The command a verb runs: the program, quoted, in quick mode on the clicked file.
pub open spec fn command_line(exe: Seq<char>, format: Seq<char>) -> Seq<char> {
    "\""@ + exe + "\" --quick "@ + format + " \"%1\""@
}

/// One value to set in the current user's registry.
#[derive(Debug, PartialEq, Eq)]
pub struct RegistryWrite {
    /// The key, under HKEY_CURRENT_USER, created if it is missing.
    pub key: String,
    /// The value's name; empty for the key's default value.
    pub name: String,
    /// The string data.
    pub data: String,
}

pub struct RegistryWriteView {
    pub key: Seq<char>,
    pub name: Seq<char>,
    pub data: Seq<char>,
}

impl View for RegistryWrite {
    type V = RegistryWriteView;

    open spec fn view(&self) -> RegistryWriteView {
        RegistryWriteView { key: self.key@, name: self.name@, data: self.data@ }
    }
}

pub open spec fn writes_view(v: Seq<RegistryWrite>) -> Seq<RegistryWriteView> {
    v.map_values(|w: RegistryWrite| w@)
}

/// The values one verb needs: its label, its icon, a multi-selection model that
/// lets it run on large selections, and its command.
pub open spec fn verb_writes(
    ext: Seq<char>,
    verb: Seq<char>,
    label: Seq<char>,
    format: Seq<char>,
    exe: Seq<char>,
) -> Seq<RegistryWriteView> {
    let key = spec_verb_key(ext, verb);
    seq![
        RegistryWriteView { key, name: ""@, data: label },
        RegistryWriteView { key, name: "Icon"@, data: exe },
        RegistryWriteView { key, name: "MultiSelectModel"@, data: "Player"@ },
        RegistryWriteView { key: key + "\\command"@, name: ""@, data: command_line(exe, format) },
    ]
}

pub open spec fn heic() -> Seq<char> {
    ".heic"@
}

pub open spec fn heif() -> Seq<char> {
    ".heif"@
}

pub open spec fn jpeg_verb() -> Seq<char> {
    "HEICConvert.jpeg"@
}

pub open spec fn png_verb() -> Seq<char> {
    "HEICConvert.png"@
}

/// All writes that add the menu, for the program at `exe`: for .heic then
/// .heif, the JPEG verb then the PNG verb.
pub open spec fn spec_enable_writes(exe: Seq<char>) -> Seq<RegistryWriteView> {
    verb_writes(heic(), jpeg_verb(), "Convert to JPEG"@, "jpeg"@, exe)
        + verb_writes(heic(), png_verb(), "Convert to PNG"@, "png"@, exe)
        + verb_writes(heif(), jpeg_verb(), "Convert to JPEG"@, "jpeg"@, exe)
        + verb_writes(heif(), png_verb(), "Convert to PNG"@, "png"@, exe)
}

/// The verb keys, each removed with everything under it to take the menu away.
pub open spec fn spec_verb_keys() -> Seq<Seq<char>> {
    seq![
        spec_verb_key(heic(), jpeg_verb()),
        spec_verb_key(heic(), png_verb()),
        spec_verb_key(heif(), jpeg_verb()),
        spec_verb_key(heif(), png_verb()),
    ]
}

/// The key whose presence means the menu is enabled.
pub open spec fn spec_marker_key() -> Seq<char> {
    spec_verb_key(heic(), jpeg_verb())
}

/// The registry key under which the shell verbs of `ext` live.
pub fn shell_key(ext: &str) -> (r: String)
    ensures
        r@ == spec_shell_key(ext@),
{
    let mut s = String::from_str("Software\\Classes\\SystemFileAssociations\\");
    s.append(ext);
    s.append("\\shell");
    s
}

/// The registry key of verb `verb` of extension `ext`.
pub fn verb_key(ext: &str, verb: &str) -> (r: String)
    ensures
        r@ == spec_verb_key(ext@, verb@),
{
    let mut s = shell_key(ext);
    s.append("\\");
    s.append(verb);
    s
}

fn push_write(plan: &mut Vec<RegistryWrite>, key: &str, name: &str, data: &str)
    ensures
        writes_view(final(plan)@) == writes_view(old(plan)@).push(
            RegistryWriteView { key: key@, name: name@, data: data@ },
        ),
{
    plan.push(RegistryWrite {
        key: String::from_str(key),
        name: String::from_str(name),
        data: String::from_str(data),
    });
    assert(writes_view(plan@) =~= writes_view(old(plan)@).push(
        RegistryWriteView { key: key@, name: name@, data: data@ },
    ));
}

fn push_verb_writes(
    plan: &mut Vec<RegistryWrite>,
    ext: &str,
    verb: &str,
    label: &str,
    format: &str,
    exe: &str,
)
    ensures
        writes_view(final(plan)@) == writes_view(old(plan)@) + verb_writes(ext@, verb@, label@, format@, exe@),
{
    let key = verb_key(ext, verb);
    push_write(plan, key.as_str(), "", label);
    push_write(plan, key.as_str(), "Icon", exe);
    push_write(plan, key.as_str(), "MultiSelectModel", "Player");
    let mut command_key = key.clone();
    command_key.append("\\command");
    let mut command = String::from_str("\"");
    command.append(exe);
    command.append("\" --quick ");
    command.append(format);
    command.append(" \"%1\"");
    push_write(plan, command_key.as_str(), "", command.as_str());
    assert(writes_view(plan@) =~= writes_view(old(plan)@) + verb_writes(
        ext@,
        verb@,
        label@,
        format@,
        exe@,
    ));
}

/// The registry values to set, in order, to add the menu for the program at `exe`.
pub fn enable_writes(exe: &str) -> (r: Vec<RegistryWrite>)
    ensures
        writes_view(r@) == spec_enable_writes(exe@),
{
    let mut plan: Vec<RegistryWrite> = Vec::new();
    assert(writes_view(plan@) =~= Seq::<RegistryWriteView>::empty());
    push_verb_writes(&mut plan, ".heic", "HEICConvert.jpeg", "Convert to JPEG", "jpeg", exe);
    push_verb_writes(&mut plan, ".heic", "HEICConvert.png", "Convert to PNG", "png", exe);
    push_verb_writes(&mut plan, ".heif", "HEICConvert.jpeg", "Convert to JPEG", "jpeg", exe);
    push_verb_writes(&mut plan, ".heif", "HEICConvert.png", "Convert to PNG", "png", exe);
    assert(writes_view(plan@) =~= spec_enable_writes(exe@));
    plan
}

/// The registry keys to remove, in order, with everything under them, to take the menu away.
pub fn disable_keys() -> (r: Vec<String>)
    ensures
        strings_view(r@) == spec_verb_keys(),
{
    let mut keys: Vec<String> = Vec::new();
    keys.push(verb_key(".heic", "HEICConvert.jpeg"));
    keys.push(verb_key(".heic", "HEICConvert.png"));
    keys.push(verb_key(".heif", "HEICConvert.jpeg"));
    keys.push(verb_key(".heif", "HEICConvert.png"));
    assert(strings_view(keys@) =~= spec_verb_keys());
    keys
}

/// The key whose presence in the registry means the menu is enabled.
pub fn enabled_marker_key() -> (r: String)
    ensures
        r@ == spec_marker_key(),
{
    verb_key(".heic", "HEICConvert.jpeg")
}

/// How removing one key went.
#[derive(Debug, PartialEq, Eq)]
pub enum DeleteOutcome {
    Removed,
    /// The key was not there.
    NotFound,
    /// Any other failure, with its message.
    Failed(String),
}

/// What a removal means for taking the menu away: a key that is already gone
/// is no error; any other failure ends it with that failure's message.
pub fn deletion_verdict(outcome: DeleteOutcome) -> (r: Result<(), String>)
    ensures
        outcome matches DeleteOutcome::Failed(m) ==> (r matches Err(e) && e@ == m@),
        !(outcome is Failed) ==> r is Ok,
{
    match outcome {
        DeleteOutcome::Removed => Ok(()),
        DeleteOutcome::NotFound => Ok(()),
        DeleteOutcome::Failed(m) => Err(m),
    }
}

/// Taking the menu away undoes adding it: each key that enabling writes is a
/// verb key that disabling removes (with its subtree), or its "command" subkey.
pub proof fn lemma_disable_covers_enable(exe: Seq<char>, i: int)
    requires
        0 <= i < spec_enable_writes(exe).len(),
    ensures
        spec_enable_writes(exe).len() == 4 * spec_verb_keys().len(),
        spec_enable_writes(exe)[i].key == spec_verb_keys()[i / 4]
            || spec_enable_writes(exe)[i].key == spec_verb_keys()[i / 4] + "\\command"@,
{
    let w = spec_enable_writes(exe);
    assert(w.len() == 16);
}

/// Enabling writes the key that tells the menu is enabled, and disabling removes it.
pub proof fn lemma_marker_written_and_removed(exe: Seq<char>)
    ensures
        spec_enable_writes(exe)[0].key == spec_marker_key(),
        spec_verb_keys()[0] == spec_marker_key(),
{
}

/// The extension of block `e` of the plan: .heic, then .heif.
pub open spec fn extension_at(e: int) -> Seq<char> {
    if e == 0 {
        heic()
    } else {
        heif()
    }
}

/// The verb `k` of each extension: the JPEG verb, then the PNG verb.
pub open spec fn verb_at(k: int) -> Seq<char> {
    if k == 0 {
        jpeg_verb()
    } else {
        png_verb()
    }
}

/// The format that verb `k` converts to.
pub open spec fn format_of_verb(k: int) -> Seq<char> {
    if k == 0 {
        "jpeg"@
    } else {
        "png"@
    }
}

/// The menu label of verb `k`.
pub open spec fn label_of_verb(k: int) -> Seq<char> {
    if k == 0 {
        "Convert to JPEG"@
    } else {
        "Convert to PNG"@
    }
}

/// Every verb of every extension gets its four values, and its command runs
/// the format the verb is named for: "Convert to JPEG" converts to JPEG and
/// "Convert to PNG" to PNG, on .heic and on .heif alike.
pub proof fn lemma_each_verb_runs_its_format(exe: Seq<char>, e: int, k: int)
    requires
        0 <= e < 2,
        0 <= k < 2,
    ensures
        spec_enable_writes(exe).len() == 16,
        ({
            let w = spec_enable_writes(exe);
            let base = 8 * e + 4 * k;
            let key = spec_verb_key(extension_at(e), verb_at(k));
            &&& w[base] == (RegistryWriteView { key, name: ""@, data: label_of_verb(k) })
            &&& w[base + 1] == (RegistryWriteView { key, name: "Icon"@, data: exe })
            &&& w[base + 2] == (RegistryWriteView { key, name: "MultiSelectModel"@, data: "Player"@ })
            &&& w[base + 3] == (RegistryWriteView {
                key: key + "\\command"@,
                name: ""@,
                data: command_line(exe, format_of_verb(k)),
            })
        }),
{
    let w = spec_enable_writes(exe);
    assert(w.len() == 16);
}

/// The .heif half of the plan is the .heic half with the extension in each
/// key changed: same value names, same data, same verbs, in the same order.
pub proof fn lemma_extensions_treated_alike(exe: Seq<char>, j: int)
    requires
        0 <= j < 8,
    ensures
        ({
            let w = spec_enable_writes(exe);
            let k = j / 4;
            let suffix = if j % 4 == 3 { "\\command"@ } else { Seq::<char>::empty() };
            &&& w[j + 8].name == w[j].name
            &&& w[j + 8].data == w[j].data
            &&& w[j].key == spec_verb_key(heic(), verb_at(k)) + suffix
            &&& w[j + 8].key == spec_verb_key(heif(), verb_at(k)) + suffix
        }),
{
    let w = spec_enable_writes(exe);
    assert(w.len() == 16);
    let k = j / 4;
    lemma_each_verb_runs_its_format(exe, 0, k);
    lemma_each_verb_runs_its_format(exe, 1, k);
    if j % 4 != 3 {
        let key = spec_verb_key(heic(), verb_at(k));
        assert(key + Seq::<char>::empty() =~= key);
        let key2 = spec_verb_key(heif(), verb_at(k));
        assert(key2 + Seq::<char>::empty() =~= key2);
    }
}

}
