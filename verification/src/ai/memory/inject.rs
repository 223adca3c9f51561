//! Prompt composition: memory files between fences, lines of recent chat and
//! templates with placeholders.

use rand::RngCore;
use vstd::prelude::*;
use vstd::string::StringExecFns;

use crate::ai::chat_history;
use crate::ai::chat_history::{ChatHistoryEntry, ChatHistorySource, EntryModel};
use crate::berlin;
use crate::lists;
use crate::text::{chars, search, slice};
use crate::time;
use crate::time::Timestamp;

verus! {

/// Bytes of recent chat of the main channel that go into a prompt.
pub const RECENT_CHAT_PRIMARY_BYTES: usize = 2048;

/// Bytes of recent chat of the second channel that go into a prompt.
pub const RECENT_CHAT_AI_CHANNEL_BYTES: usize = 1024;

/// What a fenced block is about.
#[derive(Debug)]
pub enum FenceLabel<'a> {
    Soul,
    Lore,
    User { id: &'a str, login: Option<&'a str>, display_name: Option<&'a str> },
    State { slug: &'a str },
    Transcript { date: &'a str },
}

/// What a label holds.
pub enum LabelModel {
    Soul,
    Lore,
    User { id: Seq<char>, login: Option<Seq<char>>, display_name: Option<Seq<char>> },
    State { slug: Seq<char> },
    Transcript { date: Seq<char> },
}

impl<'a> View for FenceLabel<'a> {
    type V = LabelModel;

    open spec fn view(&self) -> LabelModel {
        match *self {
            FenceLabel::Soul => LabelModel::Soul,
            FenceLabel::Lore => LabelModel::Lore,
            FenceLabel::User { id, login, display_name } => LabelModel::User {
                id: id@,
                login: slice::opt_str(login),
                display_name: slice::opt_str(display_name),
            },
            FenceLabel::State { slug } => LabelModel::State { slug: slug@ },
            FenceLabel::Transcript { date } => LabelModel::Transcript { date: date@ },
        }
    }
}

/// The channel in which the bot was addressed.
#[derive(Clone, Copy, Debug, PartialEq, Eq, Structural)]
pub enum InvocationChannel {
    Primary,
    AiChannel,
}

/// The small hexadecimal digit of a number below sixteen.
pub open spec fn hex_char(n: int) -> char {
    if n < 10 {
        ('0' as u32 + n) as char
    } else {
        ('a' as u32 + n - 10) as char
    }
}

/// Two small hexadecimal digits for each byte.
pub open spec fn hex_text(bytes: Seq<u8>) -> Seq<char>
    decreases bytes.len(),
{
    if bytes.len() == 0 {
        Seq::empty()
    } else {
        hex_text(bytes.drop_last()) + seq![
            hex_char(bytes.last() as int / 16),
            hex_char(bytes.last() as int % 16),
        ]
    }
}

/// Trusts `RngCore::fill_bytes` of `rand::rng`: it fills the slice that it is
/// given, whose length stays as it is. Nothing is said of the bytes.
#[verifier::external_body]
fn random_bytes() -> (bytes: [u8; 8]) {
    let mut bytes = [0u8; 8];
    rand::rng().fill_bytes(&mut bytes);
    bytes
}

/// The small hexadecimal digit of a number below sixteen.
fn hex_digit(n: u8) -> (c: char)
    requires
        n < 16,
    ensures
        c == hex_char(n as int),
{
    if n < 10 {
        (48 + n) as char
    } else {
        (87 + n) as char
    }
}

/// Two small hexadecimal digits for each byte.
pub fn nonce_text(bytes: &[u8]) -> (r: String)
    ensures
        r@ == hex_text(bytes@),
{
    let mut r = String::new();
    let mut i: usize = 0;
    while i < bytes.len()
        invariant
            i <= bytes@.len(),
            r@ == hex_text(bytes@.take(i as int)),
        decreases bytes@.len() - i,
    {
        let ghost after = bytes@.take(i + 1);
        assert(after.drop_last() =~= bytes@.take(i as int));
        r.push(hex_digit(bytes[i] / 16));
        r.push(hex_digit(bytes[i] % 16));
        assert(r@ =~= hex_text(after));
        i = i + 1;
    }
    assert(bytes@.take(i as int) =~= bytes@);
    r
}

/// Whether a text is a nonce: sixteen small hexadecimal digits.
pub open spec fn is_nonce(s: Seq<char>) -> bool {
    &&& s.len() == 16
    &&& forall|i: int|
        0 <= i < s.len() ==> chars::ascii_digit(#[trigger] s[i]) || 'a' <= s[i] <= 'f'
}

/// What stands for bytes is twice as long as they are, and holds nothing but
/// small hexadecimal digits.
pub proof fn lemma_hex_text(bytes: Seq<u8>)
    ensures
        hex_text(bytes).len() == 2 * bytes.len(),
        forall|i: int|
            0 <= i < hex_text(bytes).len() ==> chars::ascii_digit(#[trigger] hex_text(bytes)[i])
                || 'a' <= hex_text(bytes)[i] <= 'f',
    decreases bytes.len(),
{
    if bytes.len() > 0 {
        lemma_hex_text(bytes.drop_last());
    }
}

/// A nonce for one prompt.
pub fn fresh_nonce() -> (r: String)
    ensures
        is_nonce(r@),
{
    let bytes = random_bytes();
    proof {
        lemma_hex_text(bytes@);
    }
    nonce_text(bytes.as_slice())
}

/// Whether a character may stand in an attribute of a fence.
pub open spec fn attr_char(c: char) -> bool {
    !chars::control(c) && c != '"' && c != '>' && c != '<'
}

/// The characters that may stand in an attribute.
pub open spec fn attr_chars() -> spec_fn(char) -> bool {
    |c: char| attr_char(c)
}

/// `s` without the characters that may not stand in an attribute.
fn sanitize_attr_value(s: &str) -> (r: String)
    ensures
        r@ == s@.filter(attr_chars()),
{
    let v = slice::chars_of(s);
    let mut r = String::new();
    let mut i: usize = 0;
    let ghost p = attr_chars();
    assert(r@ =~= v@.take(0).filter(p)) by {
        reveal(Seq::filter);
    }
    while i < v.len()
        invariant
            i <= v@.len(),
            p == attr_chars(),
            r@ == v@.take(i as int).filter(p),
        decreases v@.len() - i,
    {
        let ghost after = v@.take(i + 1);
        assert(after.drop_last() =~= v@.take(i as int));
        assert(after.filter(p) == if p(after.last()) {
            v@.take(i as int).filter(p).push(after.last())
        } else {
            v@.take(i as int).filter(p)
        }) by {
            reveal(Seq::filter);
        }
        let c = v[i];
        if !chars::is_control(c) && c != '"' && c != '>' && c != '<' {
            r.push(c);
        }
        i = i + 1;
    }
    assert(v@.take(i as int) =~= v@);
    r
}

/// The attribute of a login, where there is one.
pub open spec fn login_attr(login: Option<Seq<char>>) -> Seq<char> {
    match login {
        Some(l) => if l.len() > 0 {
            " login="@ + l
        } else {
            Seq::empty()
        },
        None => Seq::empty(),
    }
}

/// The attribute of a display name, where there is one.
pub open spec fn name_attr(name: Option<Seq<char>>) -> Seq<char> {
    match name {
        Some(n) => if n.len() > 0 {
            " name=\""@ + n.filter(attr_chars()) + "\""@
        } else {
            Seq::empty()
        },
        None => Seq::empty(),
    }
}

/// The attributes in the first line of a block.
pub open spec fn label_attrs(label: LabelModel) -> Seq<char> {
    match label {
        LabelModel::Soul => "kind=soul"@,
        LabelModel::Lore => "kind=lore"@,
        LabelModel::User { id, login, display_name } => "kind=user id="@ + id + login_attr(login)
            + name_attr(display_name),
        LabelModel::State { slug } => "kind=state slug="@ + slug,
        LabelModel::Transcript { date } => "kind=transcript date="@ + date,
    }
}

/// The attributes in the first line of a block.
fn render_label_attrs(label: &FenceLabel) -> (r: String)
    ensures
        r@ == label_attrs(label@),
{
    match *label {
        FenceLabel::Soul => "kind=soul".to_owned(),
        FenceLabel::Lore => "kind=lore".to_owned(),
        FenceLabel::State { slug } => {
            let mut s = "kind=state slug=".to_owned();
            s.append(slug);
            s
        },
        FenceLabel::Transcript { date } => {
            let mut s = "kind=transcript date=".to_owned();
            s.append(date);
            s
        },
        FenceLabel::User { id, login, display_name } => {
            let mut s = "kind=user id=".to_owned();
            s.append(id);
            if let Some(l) = login {
                if !l.is_empty() {
                    s.append(" login=");
                    s.append(l);
                }
            }
            assert(s@ =~= "kind=user id="@ + id@ + login_attr(slice::opt_str(login)));
            if let Some(n) = display_name {
                if !n.is_empty() {
                    s.append(" name=\"");
                    s.append(sanitize_attr_value(n).as_str());
                    s.append("\"");
                }
            }
            assert(s@ =~= label_attrs(label@));
            s
        },
    }
}

/// Whether a text holds the beginning of a fence.
pub open spec fn holds_fence(body: Seq<char>) -> bool {
    search::contains(body, "<<<FILE"@) || search::contains(body, "<<<ENDFILE"@)
}

/// What goes into a prompt for a text: the text, unless it holds the beginning
/// of a fence.
pub open spec fn scrubbed(body: Seq<char>) -> Seq<char> {
    if holds_fence(body) {
        "<corrupt: rejected>"@
    } else {
        body
    }
}

/// What goes into a prompt for a text: the text, unless it holds the beginning
/// of a fence.
pub fn scrub_for_inject(body: &str) -> (r: String)
    ensures
        r@ == scrubbed(body@),
{
    if search::has(body, "<<<FILE") || search::has(body, "<<<ENDFILE") {
        return "<corrupt: rejected>".to_owned();
    }
    body.to_owned()
}

/// A text between its fences.
pub open spec fn fenced(label: LabelModel, nonce: Seq<char>, body: Seq<char>) -> Seq<char> {
    "<<<FILE "@ + label_attrs(label) + " nonce="@ + nonce + ">>>\n"@ + scrubbed(body)
        + "\n<<<ENDFILE nonce="@ + nonce + ">>>"@
}

/// A text between its fences.
pub fn fence_block(label: FenceLabel, nonce: &str, body: &str) -> (r: String)
    ensures
        r@ == fenced(label@, nonce@, body@),
{
    let mut r = "<<<FILE ".to_owned();
    r.append(render_label_attrs(&label).as_str());
    r.append(" nonce=");
    r.append(nonce);
    r.append(">>>\n");
    r.append(scrub_for_inject(body).as_str());
    r.append("\n<<<ENDFILE nonce=");
    r.append(nonce);
    r.append(">>>");
    r
}

/// What a template's placeholders stand for.
#[derive(Clone, Copy)]
pub struct SubstitutionVars<'a> {
    pub speaker_username: &'a str,
    pub speaker_display: &'a str,
    pub speaker_user_id: &'a str,
    pub speaker_role: &'a str,
    pub channel: &'a str,
    pub date: &'a str,
}

/// What the placeholders stand for, as texts.
#[verifier::ext_equal]
pub struct VarsModel {
    pub speaker_username: Seq<char>,
    pub speaker_display: Seq<char>,
    pub speaker_user_id: Seq<char>,
    pub speaker_role: Seq<char>,
    pub channel: Seq<char>,
    pub date: Seq<char>,
}

impl<'a> View for SubstitutionVars<'a> {
    type V = VarsModel;

    open spec fn view(&self) -> VarsModel {
        VarsModel {
            speaker_username: self.speaker_username@,
            speaker_display: self.speaker_display@,
            speaker_user_id: self.speaker_user_id@,
            speaker_role: self.speaker_role@,
            channel: self.channel@,
            date: self.date@,
        }
    }
}

/// A template with its placeholders replaced, one after the other.
pub open spec fn substituted(template: Seq<char>, v: VarsModel) -> Seq<char> {
    let a = search::replaced(template, "{speaker_username}"@, v.speaker_username);
    let b = search::replaced(a, "{speaker_display}"@, v.speaker_display);
    let c = search::replaced(b, "{speaker_user_id}"@, v.speaker_user_id);
    let d = search::replaced(c, "{speaker_role}"@, v.speaker_role);
    let e = search::replaced(d, "{channel}"@, v.channel);
    search::replaced(e, "{date}"@, v.date)
}

/// A template with its placeholders replaced.
pub fn substitute(template: &str, v: SubstitutionVars) -> (r: String)
    ensures
        r@ == substituted(template@, v@),
{
    proof {
        reveal_strlit("{speaker_username}");
        reveal_strlit("{speaker_display}");
        reveal_strlit("{speaker_user_id}");
        reveal_strlit("{speaker_role}");
        reveal_strlit("{channel}");
        reveal_strlit("{date}");
    }
    let a = search::replace_all(template, "{speaker_username}", v.speaker_username);
    let b = search::replace_all(a.as_str(), "{speaker_display}", v.speaker_display);
    let c = search::replace_all(b.as_str(), "{speaker_user_id}", v.speaker_user_id);
    let d = search::replace_all(c.as_str(), "{speaker_role}", v.speaker_role);
    let e = search::replace_all(d.as_str(), "{channel}", v.channel);
    search::replace_all(e.as_str(), "{date}", v.date)
}

/// A line of chat in a prompt. What the bot said stands under its persona.
pub open spec fn entry_line(e: EntryModel, bot_login: Seq<char>, persona: Seq<char>) -> Seq<char> {
    let clock = "["@ + time::clock_text(
        berlin::local_second_of_day(e.timestamp.spec_secs()) as nat,
    ) + "] "@;
    if e.source == ChatHistorySource::Bot || chars::same_ignoring_case(e.username, bot_login) {
        clock + persona + " (self): "@ + e.text
    } else {
        let name = match e.display_name {
            Some(n) => if n.len() > 0 {
                n
            } else {
                e.username
            },
            None => e.username,
        };
        clock + name + ": "@ + e.text
    }
}

/// A line of chat in a prompt.
pub fn format_entry_line(entry: &ChatHistoryEntry, bot_login: &str, persona_name: &str) -> (r:
    String)
    requires
        entry@.timestamp.valid(),
    ensures
        r@ == entry_line(entry@, bot_login@, persona_name@),
{
    let mut r = "[".to_owned();
    r.append(berlin::local_clock(entry.timestamp).as_str());
    r.append("] ");
    if entry.source == ChatHistorySource::Bot || slice::eq_ignoring_case(
        entry.username.as_str(),
        bot_login,
    ) {
        r.append(persona_name);
        r.append(" (self): ");
        r.append(entry.text.as_str());
        return r;
    }
    let mut name: &str = entry.username.as_str();
    if let Some(n) = &entry.display_name {
        if !n.as_str().is_empty() {
            name = n.as_str();
        }
    }
    r.append(name);
    r.append(": ");
    r.append(entry.text.as_str());
    r
}

/// The lines of a channel's chat.
pub open spec fn chat_lines(
    entries: Seq<EntryModel>,
    bot_login: Seq<char>,
    persona: Seq<char>,
) -> Seq<Seq<char>> {
    entries.map_values(|e: EntryModel| entry_line(e, bot_login, persona))
}

/// How many of the newest lines fit into so many bytes, each with a line break.
pub open spec fn newest_fitting(lines: Seq<Seq<char>>, room: int) -> nat
    decreases lines.len(),
{
    if lines.len() == 0 || slice::utf8_len(lines.last()) + 1 > room {
        0
    } else {
        1 + newest_fitting(lines.drop_last(), room - slice::utf8_len(lines.last()) - 1)
    }
}

/// No more lines fit than there are.
pub proof fn lemma_newest_fitting(lines: Seq<Seq<char>>, room: int)
    ensures
        newest_fitting(lines, room) <= lines.len(),
    decreases lines.len(),
{
    if lines.len() == 0 || slice::utf8_len(lines.last()) + 1 > room {
    } else {
        lemma_newest_fitting(lines.drop_last(), room - slice::utf8_len(lines.last()) - 1);
    }
}

/// The recent chat of one channel.
#[derive(Debug)]
pub struct RenderedRecentSection {
    pub body: String,
    /// Who wrote the lines, in lower case and the newest first.
    pub usernames: Vec<String>,
}

/// What a section holds.
#[verifier::ext_equal]
pub struct SectionModel {
    pub body: Seq<char>,
    pub usernames: Seq<Seq<char>>,
}

impl View for RenderedRecentSection {
    type V = SectionModel;

    open spec fn view(&self) -> SectionModel {
        SectionModel { body: self.body@, usernames: slice::texts(self.usernames@) }
    }
}

/// The section of an optional section.
pub open spec fn section(o: Option<RenderedRecentSection>) -> Option<SectionModel> {
    match o {
        Some(s) => Some(s@),
        None => None,
    }
}

/// Who wrote the lines, in lower case.
pub open spec fn writers(entries: Seq<EntryModel>) -> Seq<Seq<char>> {
    entries.map_values(|e: EntryModel| chars::ascii_lowered(e.username))
}

/// The section of a channel's chat: its newest lines, as many as fit, in the
/// order in which they were written. There is none where no line fits.
pub open spec fn recent_section(
    entries: Seq<EntryModel>,
    login: Seq<char>,
    room: int,
    bot_login: Seq<char>,
    persona: Seq<char>,
) -> Option<SectionModel> {
    let lines = chat_lines(entries, bot_login, persona);
    let n = newest_fitting(lines, room);
    if n == 0 {
        None
    } else {
        Some(
            SectionModel {
                body: "## Recent chat (#"@ + login + ")\n"@ + slice::joined(
                    lines.skip(lines.len() - n),
                    "\n"@,
                ),
                usernames: writers(entries.skip(entries.len() - n)).reverse(),
            },
        )
    }
}

/// The section of a channel's chat.
pub fn render_recent_section(
    entries: &Vec<ChatHistoryEntry>,
    login: &str,
    cap: usize,
    bot_login: &str,
    persona_name: &str,
) -> (r: Option<RenderedRecentSection>)
    requires
        chat_history::dated(chat_history::entries(entries@)),
    ensures
        section(r) == recent_section(
            chat_history::entries(entries@),
            login@,
            cap as int,
            bot_login@,
            persona_name@,
        ),
{
    let ghost all = chat_history::entries(entries@);
    let ghost lines = chat_lines(all, bot_login@, persona_name@);
    let ghost n = newest_fitting(lines, cap as int);
    let mut newest: Vec<String> = Vec::new();
    let mut usernames: Vec<String> = Vec::new();
    let mut room: usize = cap;
    let mut i: usize = entries.len();
    assert(lines.take(i as int) =~= lines);
    proof {
        lemma_newest_fitting(lines, cap as int);
    }
    while i > 0
        invariant_except_break
            newest@.len() + newest_fitting(lines.take(i as int), room as int) == n,
        invariant
            i <= entries@.len(),
            all == chat_history::entries(entries@),
            chat_history::dated(all),
            lines == chat_lines(all, bot_login@, persona_name@),
            newest@.len() == entries@.len() - i,
            usernames@.len() == newest@.len(),
            forall|j: int|
                0 <= j < newest@.len() ==> (#[trigger] newest@[j])@ == lines[lines.len() - 1 - j],
            forall|j: int|
                0 <= j < usernames@.len() ==> (#[trigger] usernames@[j])@ == chars::ascii_lowered(
                    all[all.len() - 1 - j].username,
                ),
        ensures
            newest@.len() == n,
        decreases i,
    {
        let entry = &entries[i - 1];
        assert(all[i - 1] == entry@);
        let line = format_entry_line(entry, bot_login, persona_name);
        let ghost front = lines.take(i as int);
        assert(front.last() == line@);
        assert(front.drop_last() =~= lines.take(i - 1));
        let size: usize = slice::byte_len(line.as_str());
        if size >= room {
            break;
        }
        room = room - size - 1;
        newest.push(line);
        usernames.push(slice::to_ascii_lower(entry.username.as_str()));
        i = i - 1;
    }
    if newest.len() == 0 {
        return None;
    }
    let mut chosen: Vec<String> = Vec::new();
    let mut k: usize = newest.len();
    while k > 0
        invariant
            k <= newest@.len(),
            chosen@.len() == newest@.len() - k,
            forall|j: int|
                0 <= j < chosen@.len() ==> (#[trigger] chosen@[j])@ == newest@[newest@.len() - 1
                    - j]@,
        decreases k,
    {
        chosen.push(newest[k - 1].clone());
        k = k - 1;
    }
    assert(slice::texts(chosen@) =~= lines.skip(lines.len() - n));
    assert(slice::texts(usernames@) =~= writers(all.skip(all.len() - n)).reverse());
    let mut body = "## Recent chat (#".to_owned();
    body.append(login);
    body.append(")\n");
    body.append(slice::join(&chosen, "\n").as_str());
    Some(RenderedRecentSection { body, usernames })
}

/// What a memory file is about.
#[derive(Debug)]
pub enum FileKind {
    Soul,
    Lore,
    User { user_id: String },
    State { slug: String },
}

/// What a memory file says of itself.
#[derive(Debug)]
pub struct Frontmatter {
    pub updated_at: Timestamp,
    pub username: Option<String>,
    pub display_name: Option<String>,
}

/// A memory file.
#[derive(Debug)]
pub struct MemoryFile {
    pub kind: FileKind,
    pub frontmatter: Frontmatter,
    pub body: String,
}

/// What the kind of a file holds.
pub enum KindModel {
    Soul,
    Lore,
    User { user_id: Seq<char> },
    State { slug: Seq<char> },
}

/// What a memory file holds.
pub struct FileModel {
    pub kind: KindModel,
    pub updated_at: Timestamp,
    pub username: Option<Seq<char>>,
    pub display_name: Option<Seq<char>>,
    pub body: Seq<char>,
}

impl View for FileKind {
    type V = KindModel;

    open spec fn view(&self) -> KindModel {
        match *self {
            FileKind::Soul => KindModel::Soul,
            FileKind::Lore => KindModel::Lore,
            FileKind::User { user_id } => KindModel::User { user_id: user_id@ },
            FileKind::State { slug } => KindModel::State { slug: slug@ },
        }
    }
}

impl View for MemoryFile {
    type V = FileModel;

    open spec fn view(&self) -> FileModel {
        FileModel {
            kind: self.kind@,
            updated_at: self.frontmatter.updated_at,
            username: slice::opt_text(self.frontmatter.username),
            display_name: slice::opt_text(self.frontmatter.display_name),
            body: self.body@,
        }
    }
}

/// What a list of files holds.
pub open spec fn files(v: Seq<MemoryFile>) -> Seq<FileModel> {
    v.map_values(|f: MemoryFile| f@)
}

/// What a list of borrowed files holds.
pub open spec fn borrowed(v: Seq<&MemoryFile>) -> Seq<FileModel> {
    v.map_values(|f: &MemoryFile| f@)
}

/// Whether a file is about the speaker. Without a login there is no speaker.
pub open spec fn about_speaker(f: FileModel, speaker: Seq<char>) -> bool {
    speaker.len() > 0 && match f.username {
        Some(n) => chars::same_ignoring_case(n, speaker),
        None => false,
    }
}

/// Whether a file comes before another: the speaker's before others', then the
/// newer before the older.
pub open spec fn comes_before(a: FileModel, b: FileModel, speaker: Seq<char>) -> bool {
    if about_speaker(a, speaker) != about_speaker(b, speaker) {
        about_speaker(a, speaker)
    } else {
        a.updated_at.ticks > b.updated_at.ticks
    }
}

/// The files before which a file comes.
pub open spec fn overtaken_by(f: FileModel, speaker: Seq<char>) -> spec_fn(FileModel) -> bool {
    |g: FileModel| comes_before(f, g, speaker)
}

/// The place at which a file goes into a list: before the first file that it
/// comes before.
pub open spec fn place(list: Seq<FileModel>, f: FileModel, speaker: Seq<char>) -> int {
    match lists::first_where(list, overtaken_by(f, speaker)) {
        Some(i) => i,
        None => list.len() as int,
    }
}

/// The files in the order in which they are to be read. Files of equal rank
/// stay in the order in which they came.
pub open spec fn ordered(list: Seq<FileModel>, speaker: Seq<char>) -> Seq<FileModel>
    decreases list.len(),
{
    if list.len() == 0 {
        Seq::empty()
    } else {
        let front = ordered(list.drop_last(), speaker);
        front.insert(place(front, list.last(), speaker), list.last())
    }
}

/// Whether a file is about the speaker.
fn is_about_speaker(f: &MemoryFile, speaker: &str) -> (b: bool)
    ensures
        b == about_speaker(f@, speaker@),
{
    match &f.frontmatter.username {
        Some(n) => !speaker.is_empty() && slice::eq_ignoring_case(n.as_str(), speaker),
        None => false,
    }
}

/// Whether a file comes before another.
fn is_before(a: &MemoryFile, b: &MemoryFile, speaker: &str) -> (r: bool)
    ensures
        r == comes_before(a@, b@, speaker@),
{
    let first = is_about_speaker(a, speaker);
    if first != is_about_speaker(b, speaker) {
        first
    } else {
        a.frontmatter.updated_at.ticks > b.frontmatter.updated_at.ticks
    }
}

/// The files in the order in which they are to be read.
fn sort_files<'a>(list: &Vec<&'a MemoryFile>, speaker: &str) -> (r: Vec<&'a MemoryFile>)
    ensures
        borrowed(r@) == ordered(borrowed(list@), speaker@),
{
    let ghost all = borrowed(list@);
    let mut r: Vec<&'a MemoryFile> = Vec::new();
    let mut i: usize = 0;
    assert(borrowed(r@) =~= ordered(all.take(0), speaker@));
    while i < list.len()
        invariant
            i <= list@.len(),
            all == borrowed(list@),
            r@.len() == i,
            borrowed(r@) == ordered(all.take(i as int), speaker@),
        decreases list@.len() - i,
    {
        let f: &'a MemoryFile = list[i];
        let ghost front = borrowed(r@);
        let mut k: usize = 0;
        while k < r.len() && !is_before(f, r[k], speaker)
            invariant
                k <= r@.len(),
                front == borrowed(r@),
                forall|j: int| 0 <= j < k ==> !comes_before(f@, #[trigger] front[j], speaker@),
            decreases r@.len() - k,
        {
            assert(front[k as int] == r@[k as int]@);
            k = k + 1;
        }
        proof {
            let p = overtaken_by(f@, speaker@);
            if k < r@.len() {
                assert(front[k as int] == r@[k as int]@);
                lists::lemma_first_at(front, p, k as int);
            } else {
                lists::lemma_first_none(front, p);
            }
            let after = all.take(i + 1);
            assert(after.drop_last() =~= all.take(i as int));
            assert(after.last() == f@);
        }
        r.insert(k, f);
        assert(borrowed(r@) =~= front.insert(k as int, f@));
        i = i + 1;
    }
    assert(all.take(i as int) =~= all);
    r
}

/// Whether a file is about someone in the chat window, or about the speaker.
pub open spec fn within(f: FileModel, mentioned: Seq<Seq<char>>, speaker: Seq<char>) -> bool {
    match f.username {
        Some(n) => mentioned.contains(chars::ascii_lowered(n)) || (speaker.len() > 0
            && chars::ascii_lowered(n) == speaker),
        None => false,
    }
}

/// The files about someone in the chat window, or about the speaker.
pub open spec fn in_scope(mentioned: Seq<Seq<char>>, speaker: Seq<char>) -> spec_fn(
    FileModel,
) -> bool {
    |f: FileModel| within(f, mentioned, speaker)
}

/// Whether a file is about someone in the chat window, or about the speaker.
fn is_within(f: &MemoryFile, mentioned: &Vec<String>, speaker: &str) -> (b: bool)
    ensures
        b == within(f@, slice::texts(mentioned@), speaker@),
{
    match &f.frontmatter.username {
        Some(n) => {
            let name = slice::to_ascii_lower(n.as_str());
            slice::listed(mentioned, name.as_str()) || (!speaker.is_empty() && slice::same(
                name.as_str(),
                speaker,
            ))
        },
        None => false,
    }
}

/// The files about someone in the chat window, or about the speaker. Outside a
/// chat turn, all of them.
pub open spec fn scoped(
    list: Seq<FileModel>,
    chat_turn: bool,
    mentioned: Seq<Seq<char>>,
    speaker: Seq<char>,
) -> Seq<FileModel> {
    if chat_turn {
        list.filter(in_scope(mentioned, speaker))
    } else {
        list
    }
}

/// The files about someone in the chat window, or about the speaker.
fn scope_files<'a>(
    list: &'a Vec<MemoryFile>,
    chat_turn: bool,
    mentioned: &Vec<String>,
    speaker: &str,
) -> (r: Vec<&'a MemoryFile>)
    ensures
        borrowed(r@) == scoped(files(list@), chat_turn, slice::texts(mentioned@), speaker@),
{
    let ghost all = files(list@);
    let ghost p = in_scope(slice::texts(mentioned@), speaker@);
    let mut r: Vec<&'a MemoryFile> = Vec::new();
    let mut i: usize = 0;
    assert(borrowed(r@) =~= all.take(0).filter(p)) by {
        reveal(Seq::filter);
    }
    assert(borrowed(r@) =~= all.take(0));
    while i < list.len()
        invariant
            i <= list@.len(),
            all == files(list@),
            p == in_scope(slice::texts(mentioned@), speaker@),
            chat_turn ==> borrowed(r@) == all.take(i as int).filter(p),
            !chat_turn ==> borrowed(r@) == all.take(i as int),
        decreases list@.len() - i,
    {
        let ghost before = borrowed(r@);
        let ghost after = all.take(i + 1);
        let f: &'a MemoryFile = &list[i];
        assert(after.drop_last() =~= all.take(i as int));
        assert(after.last() == f@);
        assert(after =~= all.take(i as int).push(f@));
        assert(after.filter(p) == if p(f@) {
            all.take(i as int).filter(p).push(f@)
        } else {
            all.take(i as int).filter(p)
        }) by {
            reveal(Seq::filter);
        }
        if !chat_turn || is_within(f, mentioned, speaker) {
            r.push(f);
            assert(borrowed(r@) =~= before.push(f@));
        }
        i = i + 1;
    }
    assert(all.take(i as int) =~= all);
    r
}

/// The two lists of memory files that share what is left of the budget.
#[derive(Clone, Copy, Debug, PartialEq, Eq, Structural)]
pub enum Shelf {
    Users,
    States,
}

/// The label of a file, where it belongs on the shelf.
pub open spec fn label_on(shelf: Shelf, f: FileModel) -> Option<LabelModel> {
    match (shelf, f.kind) {
        (Shelf::Users, KindModel::User { user_id }) => Some(
            LabelModel::User { id: user_id, login: f.username, display_name: f.display_name },
        ),
        (Shelf::States, KindModel::State { slug }) => Some(LabelModel::State { slug }),
        _ => None,
    }
}

/// The blocks of the files on a shelf, one after the other until one does not
/// fit any more. Each takes its bytes and one for a line break. Files that do
/// not belong on the shelf are passed over.
pub open spec fn packed(list: Seq<FileModel>, shelf: Shelf, nonce: Seq<char>, room: int) -> Seq<
    Seq<char>,
>
    decreases list.len(),
{
    if list.len() == 0 {
        Seq::empty()
    } else {
        match label_on(shelf, list[0]) {
            None => packed(list.drop_first(), shelf, nonce, room),
            Some(label) => {
                let block = fenced(label, nonce, list[0].body);
                if slice::utf8_len(block) + 1 > room {
                    Seq::empty()
                } else {
                    seq![block] + packed(
                        list.drop_first(),
                        shelf,
                        nonce,
                        room - slice::utf8_len(block) - 1,
                    )
                }
            },
        }
    }
}

/// The bytes that blocks take, each with a line break.
pub open spec fn taken(blocks: Seq<Seq<char>>) -> nat
    decreases blocks.len(),
{
    if blocks.len() == 0 {
        0
    } else {
        taken(blocks.drop_last()) + slice::utf8_len(blocks.last()) + 1
    }
}

/// The block of a file, where it belongs on the shelf.
fn block_on(shelf: Shelf, f: &MemoryFile, nonce: &str) -> (r: Option<String>)
    ensures
        slice::opt_text(r) == match label_on(shelf, f@) {
            Some(label) => Some(fenced(label, nonce@, f@.body)),
            None => None,
        },
{
    match shelf {
        Shelf::Users => match &f.kind {
            FileKind::User { user_id } => Some(
                fence_block(
                    FenceLabel::User {
                        id: user_id.as_str(),
                        login: slice::borrow(&f.frontmatter.username),
                        display_name: slice::borrow(&f.frontmatter.display_name),
                    },
                    nonce,
                    f.body.as_str(),
                ),
            ),
            _ => None,
        },
        Shelf::States => match &f.kind {
            FileKind::State { slug } => Some(
                fence_block(FenceLabel::State { slug: slug.as_str() }, nonce, f.body.as_str()),
            ),
            _ => None,
        },
    }
}

/// Appends the blocks of the files on a shelf, and returns the room that is
/// left.
fn pack(
    blocks: &mut Vec<String>,
    list: &Vec<&MemoryFile>,
    shelf: Shelf,
    nonce: &str,
    room: i128,
) -> (left: i128)
    requires
        room <= usize::MAX,
    ensures
        ({
            let new = packed(borrowed(list@), shelf, nonce@, room as int);
            &&& slice::texts(final(blocks)@) == slice::texts(old(blocks)@) + new
            &&& left == room - taken(new)
        }),
{
    let ghost all = borrowed(list@);
    let ghost old_blocks = slice::texts(blocks@);
    let ghost goal = packed(all, shelf, nonce@, room as int);
    let ghost mut new: Seq<Seq<char>> = Seq::empty();
    let mut left: i128 = room;
    let mut i: usize = 0;
    assert(all.skip(0) =~= all);
    assert(new + goal =~= goal);
    assert(slice::texts(blocks@) =~= old_blocks + new);
    while i < list.len()
        invariant_except_break
            new + packed(all.skip(i as int), shelf, nonce@, left as int) == goal,
        invariant
            i <= list@.len(),
            all == borrowed(list@),
            left <= usize::MAX,
            slice::texts(blocks@) == old_blocks + new,
            left == room - taken(new),
        ensures
            new == goal,
        decreases list@.len() - i,
    {
        let ghost rest = all.skip(i as int);
        assert(rest.drop_first() =~= all.skip(i + 1));
        assert(rest[0] == list@[i as int]@);
        match block_on(shelf, list[i], nonce) {
            None => {},
            Some(block) => {
                let size: i128 = slice::byte_len(block.as_str()) as i128;
                if size + 1 > left {
                    assert(new + Seq::<Seq<char>>::empty() =~= new);
                    break;
                }
                left = left - size - 1;
                proof {
                    let grown = new.push(block@);
                    assert(grown.drop_last() =~= new);
                    assert(new + (seq![block@] + packed(
                        all.skip(i + 1),
                        shelf,
                        nonce@,
                        left as int,
                    )) =~= grown + packed(all.skip(i + 1), shelf, nonce@, left as int));
                    assert(slice::texts(blocks@.push(block)) =~= slice::texts(blocks@).push(block@));
                    assert(old_blocks + grown =~= (old_blocks + new).push(block@));
                    new = grown;
                }
                blocks.push(block);
            },
        }
        i = i + 1;
        proof {
            if i == list@.len() {
                assert(all.skip(i as int).len() == 0);
                assert(new + Seq::<Seq<char>>::empty() =~= new);
            }
        }
    }
    left
}

/// The memory files that a prompt draws on.
#[derive(Debug)]
pub struct MemoryFiles {
    pub soul: String,
    pub lore: String,
    pub users: Vec<MemoryFile>,
    pub states: Vec<MemoryFile>,
}

/// What a prompt is built for.
#[derive(Debug)]
pub struct BuildOpts {
    pub inject_byte_budget: usize,
    pub nonce: String,
    pub primary_history: Option<Vec<ChatHistoryEntry>>,
    pub primary_login: String,
    pub ai_channel_history: Option<Vec<ChatHistoryEntry>>,
    pub ai_channel_login: Option<String>,
    pub invocation_channel: InvocationChannel,
    pub bot_login: String,
    pub persona_name: String,
    /// Who addressed the bot. Empty where nobody did.
    pub speaker_login: String,
}

/// What the options hold.
pub struct OptsModel {
    pub inject_byte_budget: usize,
    pub nonce: Seq<char>,
    pub primary_history: Option<Seq<EntryModel>>,
    pub primary_login: Seq<char>,
    pub ai_channel_history: Option<Seq<EntryModel>>,
    pub ai_channel_login: Option<Seq<char>>,
    pub invocation_channel: InvocationChannel,
    pub bot_login: Seq<char>,
    pub persona_name: Seq<char>,
    pub speaker_login: Seq<char>,
}

/// The lines of an optional history.
pub open spec fn history(o: Option<Vec<ChatHistoryEntry>>) -> Option<Seq<EntryModel>> {
    match o {
        Some(v) => Some(chat_history::entries(v@)),
        None => None,
    }
}

impl View for BuildOpts {
    type V = OptsModel;

    open spec fn view(&self) -> OptsModel {
        OptsModel {
            inject_byte_budget: self.inject_byte_budget,
            nonce: self.nonce@,
            primary_history: history(self.primary_history),
            primary_login: self.primary_login@,
            ai_channel_history: history(self.ai_channel_history),
            ai_channel_login: slice::opt_text(self.ai_channel_login),
            invocation_channel: self.invocation_channel,
            bot_login: self.bot_login@,
            persona_name: self.persona_name@,
            speaker_login: self.speaker_login@,
        }
    }
}

/// Whether every line of a history was written inside the calendar.
pub open spec fn history_dated(o: Option<Seq<EntryModel>>) -> bool {
    match o {
        Some(v) => chat_history::dated(v),
        None => true,
    }
}

/// The parts of a prompt that the memory and the chat make up.
#[derive(Debug)]
pub struct ChatTurnContext {
    /// The rolling chat, which changes with every turn.
    pub recent_chat: String,
    /// The blocks about the bot, its lore and the users, which change rarely.
    pub durable_memory: String,
    /// The blocks about states, which change often.
    pub volatile_state: String,
}

/// What the parts hold.
#[verifier::ext_equal]
pub struct ContextModel {
    pub recent_chat: Seq<char>,
    pub durable_memory: Seq<char>,
    pub volatile_state: Seq<char>,
}

impl View for ChatTurnContext {
    type V = ContextModel;

    open spec fn view(&self) -> ContextModel {
        ContextModel {
            recent_chat: self.recent_chat@,
            durable_memory: self.durable_memory@,
            volatile_state: self.volatile_state@,
        }
    }
}

impl OptsModel {
    /// The section of the main channel.
    pub open spec fn primary_section(self) -> Option<SectionModel> {
        match self.primary_history {
            Some(lines) => recent_section(
                lines,
                self.primary_login,
                RECENT_CHAT_PRIMARY_BYTES as int,
                self.bot_login,
                self.persona_name,
            ),
            None => None,
        }
    }

    /// The section of the second channel.
    pub open spec fn ai_section(self) -> Option<SectionModel> {
        match (self.ai_channel_history, self.ai_channel_login) {
            (Some(lines), Some(login)) => recent_section(
                lines,
                login,
                RECENT_CHAT_AI_CHANNEL_BYTES as int,
                self.bot_login,
                self.persona_name,
            ),
            _ => None,
        }
    }

    /// The sections that there are, that of the channel in which the bot was
    /// addressed first.
    pub open spec fn sections(self) -> Seq<SectionModel> {
        match self.invocation_channel {
            InvocationChannel::Primary => one(self.primary_section()) + one(self.ai_section()),
            InvocationChannel::AiChannel => one(self.ai_section()) + one(self.primary_section()),
        }
    }

    /// Who wrote the lines of the sections.
    pub open spec fn mentioned(self) -> Seq<Seq<char>> {
        names(self.sections())
    }

    /// The login of the speaker, in lower case.
    pub open spec fn speaker(self) -> Seq<char> {
        chars::ascii_lowered(self.speaker_login)
    }

    /// Whether the prompt is for a chat turn: where there is neither chat nor
    /// a speaker, it is not.
    pub open spec fn chat_turn(self) -> bool {
        self.primary_history is Some || self.ai_channel_history is Some || self.speaker().len() > 0
    }

    /// The files about users that may go into the prompt, in order.
    pub open spec fn user_files(self, users: Seq<FileModel>) -> Seq<FileModel> {
        ordered(scoped(users, self.chat_turn(), self.mentioned(), self.speaker()), self.speaker())
    }

    /// What is left of the budget once the blocks about the bot and its lore
    /// are in. Less than nothing, where they alone exceed it.
    pub open spec fn room(self, soul: Seq<char>, lore: Seq<char>) -> int {
        self.inject_byte_budget - slice::utf8_len(fenced(LabelModel::Soul, self.nonce, soul))
            - slice::utf8_len(fenced(LabelModel::Lore, self.nonce, lore))
    }

    /// The blocks about users.
    pub open spec fn user_blocks(
        self,
        soul: Seq<char>,
        lore: Seq<char>,
        users: Seq<FileModel>,
    ) -> Seq<Seq<char>> {
        packed(self.user_files(users), Shelf::Users, self.nonce, self.room(soul, lore))
    }

    /// The blocks about states, the newest first, in the room that the blocks
    /// about users leave.
    pub open spec fn state_blocks(
        self,
        soul: Seq<char>,
        lore: Seq<char>,
        users: Seq<FileModel>,
        states: Seq<FileModel>,
    ) -> Seq<Seq<char>> {
        packed(
            ordered(states, Seq::empty()),
            Shelf::States,
            self.nonce,
            self.room(soul, lore) - taken(self.user_blocks(soul, lore, users)),
        )
    }

    /// The parts of the prompt.
    pub open spec fn context(
        self,
        soul: Seq<char>,
        lore: Seq<char>,
        users: Seq<FileModel>,
        states: Seq<FileModel>,
    ) -> ContextModel {
        ContextModel {
            recent_chat: slice::joined(bodies(self.sections()), "\n\n"@),
            durable_memory: slice::joined(
                seq![
                    fenced(LabelModel::Soul, self.nonce, soul),
                    fenced(LabelModel::Lore, self.nonce, lore),
                ] + self.user_blocks(soul, lore, users),
                "\n"@,
            ),
            volatile_state: slice::joined(self.state_blocks(soul, lore, users, states), "\n"@),
        }
    }
}

/// The list of a section that may be missing.
pub open spec fn one(o: Option<SectionModel>) -> Seq<SectionModel> {
    match o {
        Some(s) => seq![s],
        None => Seq::empty(),
    }
}

/// The texts of sections.
pub open spec fn bodies(sections: Seq<SectionModel>) -> Seq<Seq<char>> {
    sections.map_values(|s: SectionModel| s.body)
}

/// The writers of sections, one section after the other.
pub open spec fn names(sections: Seq<SectionModel>) -> Seq<Seq<char>>
    decreases sections.len(),
{
    if sections.len() == 0 {
        Seq::empty()
    } else {
        names(sections.drop_last()) + sections.last().usernames
    }
}

/// Takes up a section, where there is one.
fn take_up(
    section: Option<RenderedRecentSection>,
    sections: &mut Vec<String>,
    mentioned: &mut Vec<String>,
    Ghost(before): Ghost<Seq<SectionModel>>,
)
    requires
        slice::texts(old(sections)@) == bodies(before),
        slice::texts(old(mentioned)@) == names(before),
    ensures
        slice::texts(final(sections)@) == bodies(before + one(self::section(section))),
        slice::texts(final(mentioned)@) == names(before + one(self::section(section))),
{
    match section {
        None => {
            assert(before + Seq::<SectionModel>::empty() =~= before);
        },
        Some(s) => {
            let ghost after = before + seq![s@];
            assert(after.drop_last() =~= before);
            let ghost first = names(before);
            let mut usernames = s.usernames;
            mentioned.append(&mut usernames);
            assert(slice::texts(mentioned@) =~= first + s@.usernames);
            let ghost texts = slice::texts(sections@);
            sections.push(s.body);
            assert(slice::texts(sections@) =~= texts.push(s.body@));
            assert(bodies(after) =~= bodies(before).push(s.body@));
        },
    }
}

/// Borrows each file of a list.
fn borrow_files<'a>(list: &'a Vec<MemoryFile>) -> (r: Vec<&'a MemoryFile>)
    ensures
        borrowed(r@) == files(list@),
{
    let mut r: Vec<&'a MemoryFile> = Vec::new();
    let mut i: usize = 0;
    while i < list.len()
        invariant
            i <= list@.len(),
            r@.len() == i,
            forall|j: int| 0 <= j < i ==> (#[trigger] r@[j])@ == list@[j]@,
        decreases list@.len() - i,
    {
        r.push(&list[i]);
        i = i + 1;
    }
    assert(borrowed(r@) =~= files(list@));
    r
}

/// Builds the parts of a prompt that the memory and the chat make up.
pub fn build_chat_turn_context(store: &MemoryFiles, opts: &BuildOpts) -> (r: ChatTurnContext)
    requires
        history_dated(opts@.primary_history),
        history_dated(opts@.ai_channel_history),
    ensures
        r@ == opts@.context(store.soul@, store.lore@, files(store.users@), files(store.states@)),
{
    let bot = opts.bot_login.as_str();
    let persona = opts.persona_name.as_str();
    let primary = match &opts.primary_history {
        Some(lines) => render_recent_section(
            lines,
            opts.primary_login.as_str(),
            RECENT_CHAT_PRIMARY_BYTES,
            bot,
            persona,
        ),
        None => None,
    };
    let ai = match (&opts.ai_channel_history, &opts.ai_channel_login) {
        (Some(lines), Some(login)) => render_recent_section(
            lines,
            login.as_str(),
            RECENT_CHAT_AI_CHANNEL_BYTES,
            bot,
            persona,
        ),
        _ => None,
    };
    let (first, second) = match opts.invocation_channel {
        InvocationChannel::AiChannel => (ai, primary),
        InvocationChannel::Primary => (primary, ai),
    };
    let mut sections: Vec<String> = Vec::new();
    let mut mentioned: Vec<String> = Vec::new();
    let ghost none = Seq::<SectionModel>::empty();
    let ghost leading = none + one(section(first));
    let ghost all = leading + one(section(second));
    assert(slice::texts(sections@) =~= bodies(none));
    assert(slice::texts(mentioned@) =~= names(none));
    take_up(first, &mut sections, &mut mentioned, Ghost(none));
    take_up(second, &mut sections, &mut mentioned, Ghost(leading));
    assert(all =~= opts@.sections());

    let nonce = opts.nonce.as_str();
    let soul = fence_block(FenceLabel::Soul, nonce, store.soul.as_str());
    let lore = fence_block(FenceLabel::Lore, nonce, store.lore.as_str());
    let room: i128 = opts.inject_byte_budget as i128 - slice::byte_len(soul.as_str()) as i128
        - slice::byte_len(lore.as_str()) as i128;
    let ghost base = seq![soul@, lore@];
    let mut durable: Vec<String> = Vec::new();
    durable.push(soul);
    durable.push(lore);
    assert(slice::texts(durable@) =~= base);

    let speaker = slice::to_ascii_lower(opts.speaker_login.as_str());
    let chat_turn = opts.primary_history.is_some() || opts.ai_channel_history.is_some()
        || !speaker.as_str().is_empty();
    let scope = scope_files(&store.users, chat_turn, &mentioned, speaker.as_str());
    let users = sort_files(&scope, speaker.as_str());
    let left: i128 = pack(&mut durable, &users, Shelf::Users, nonce, room);

    assert(""@ =~= Seq::<char>::empty()) by {
        reveal_strlit("");
    }
    let states = sort_files(&borrow_files(&store.states), "");
    let mut volatile: Vec<String> = Vec::new();
    let _rest: i128 = pack(&mut volatile, &states, Shelf::States, nonce, left);
    assert(slice::texts(volatile@) =~= opts@.state_blocks(
        store.soul@,
        store.lore@,
        files(store.users@),
        files(store.states@),
    ));
    ChatTurnContext {
        recent_chat: slice::join(&sections, "\n\n"),
        durable_memory: slice::join(&durable, "\n"),
        volatile_state: slice::join(&volatile, "\n"),
    }
}

} // verus!
