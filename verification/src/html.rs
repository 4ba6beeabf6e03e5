//! HTML fragments and the texts that go into them.
//!
//! An [`Html`] holds finished markup. It grows by fixed markup (`raw`), by
//! text that is escaped on the way in (`text`, `msg`, `num`) and by other
//! fragments (`html`).
use crate::num::{decimal, show_i64, show_u64, signed_decimal};
use crate::text::{chars, same};
use vstd::prelude::*;

verus! {

/// What stands for one character of text inside markup.
pub open spec fn escaped_char(c: char) -> Seq<char> {
    if c == '&' {
        "&amp;"@
    } else if c == '<' {
        "&lt;"@
    } else if c == '>' {
        "&gt;"@
    } else if c == '"' {
        "&quot;"@
    } else if c == '\'' {
        "&#39;"@
    } else {
        seq![c]
    }
}

/// Text as it stands inside markup.
pub open spec fn escaped(s: Seq<char>) -> Seq<char>
    decreases s.len(),
{
    if s.len() == 0 {
        Seq::empty()
    } else {
        escaped(s.drop_last()) + escaped_char(s.last())
    }
}

/// `plait::RenderEscaped` of `str`: writes the text with the five markup
/// characters `&`, `<`, `>`, `"` and `'` replaced by their entities and every
/// other character as it is. Writing into a `String` does not fail.
#[verifier::external_body]
fn render_escaped(s: &str) -> (r: String)
    ensures
        r@ == escaped(s@),
{
    let mut out = String::new();
    let _ = plait::RenderEscaped::render_escaped(s, &mut out);
    out
}

/// Finished markup.
pub struct Html {
    pub text: String,
}

impl View for Html {
    type V = Seq<char>;

    open spec fn view(&self) -> Seq<char> {
        self.text@
    }
}

impl Clone for Html {
    fn clone(&self) -> (r: Self)
        ensures
            r@ == self@,
    {
        Html { text: self.text.clone() }
    }
}

impl Html {
    /// No markup.
    pub fn empty() -> (r: Html)
        ensures
            r@ == Seq::<char>::empty(),
    {
        Html { text: String::new() }
    }

    /// Fixed markup.
    pub fn new(markup: &str) -> (r: Html)
        ensures
            r@ == markup@,
    {
        Html { text: markup.to_owned() }
    }

    /// A text, escaped.
    pub fn of(s: &str) -> (r: Html)
        ensures
            r@ == escaped(s@),
    {
        Html { text: render_escaped(s) }
    }

    /// Adds fixed markup.
    pub fn raw(self, markup: &str) -> (r: Html)
        ensures
            r@ == self@ + markup@,
    {
        let mut text = self.text;
        text.append(markup);
        Html { text }
    }

    /// Adds a text, escaped.
    pub fn text(self, s: &str) -> (r: Html)
        ensures
            r@ == self@ + escaped(s@),
    {
        let mut text = self.text;
        text.append(&render_escaped(s));
        Html { text }
    }

    /// Adds a fragment.
    pub fn html(self, other: Html) -> (r: Html)
        ensures
            r@ == self@ + other@,
    {
        let mut text = self.text;
        text.append(&other.text);
        Html { text }
    }

    /// Adds a number.
    pub fn num(self, n: u64) -> (r: Html)
        ensures
            r@ == self@ + decimal(n as nat),
    {
        let mut text = self.text;
        text.append(&show_u64(n));
        Html { text }
    }

    /// Adds a signed number.
    pub fn signed(self, n: i64) -> (r: Html)
        ensures
            r@ == self@ + signed_decimal(n as int),
    {
        let mut text = self.text;
        text.append(&show_i64(n));
        Html { text }
    }

    /// Adds the message for `key`, escaped.
    pub fn msg(self, ui: &Ui, key: &str) -> (r: Html)
        ensures
            r@ == self@ + escaped(ui.message(key@)),
    {
        let m = ui.t(key);
        self.text(&m)
    }

    /// Adds an icon.
    pub fn icon(self, ui: &Ui, name: &str, size: u32) -> (r: Html)
        ensures
            r@ == self@ + ui.icon_markup(name@, size),
    {
        self.html(ui.icon(name, size))
    }

    /// The markup as a string.
    pub fn to_string(&self) -> (r: String)
        ensures
            r@ == self@,
    {
        self.text.clone()
    }
}

/// The markup of a list of fragments, one after the other.
pub open spec fn concat(parts: Seq<Html>) -> Seq<char>
    decreases parts.len(),
{
    if parts.len() == 0 {
        Seq::empty()
    } else {
        concat(parts.drop_last()) + parts.last()@
    }
}

/// Joins fragments in order.
pub fn concat_html(parts: &Vec<Html>) -> (r: Html)
    ensures
        r@ == concat(parts@),
{
    let mut out = Html::empty();
    assert(parts@.take(0) =~= Seq::<Html>::empty());
    for i in 0..parts.len()
        invariant
            out@ == concat(parts@.take(i as int)),
    {
        assert(parts@.take(i + 1).drop_last() =~= parts@.take(i as int));
        out = out.html(parts[i].clone());
    }
    assert(parts@.take(parts@.len() as int) =~= parts@);
    out
}

// ---------------------------------------------------------------------------
// Messages and icons of the user's language

/// One translated message.
pub struct Message {
    pub key: String,
    pub text: String,
}

/// One drawing, at one size.
pub struct Icon {
    pub name: String,
    pub size: u32,
    pub markup: Html,
}

/// What a page shows besides its data: messages in the user's language, icons,
/// and the logos of known connectors.
pub struct Ui {
    pub messages: Vec<Message>,
    pub icons: Vec<Icon>,
    pub logos: Vec<Icon>,
}

/// The text of the first message with that key, the key itself when there is none.
pub open spec fn message_text(messages: Seq<Message>, key: Seq<char>) -> Seq<char>
    decreases messages.len(),
{
    if messages.len() == 0 {
        key
    } else if messages[0].key@ == key {
        messages[0].text@
    } else {
        message_text(messages.drop_first(), key)
    }
}

/// The markup of the first drawing with that name and size.
pub open spec fn find_icon(icons: Seq<Icon>, name: Seq<char>, size: u32) -> Option<Seq<char>>
    decreases icons.len(),
{
    if icons.len() == 0 {
        None
    } else if icons[0].name@ == name && icons[0].size == size {
        Some(icons[0].markup@)
    } else {
        find_icon(icons.drop_first(), name, size)
    }
}

fn lookup_icon(icons: &Vec<Icon>, name: &str, size: u32) -> (r: Option<Html>)
    ensures
        match r {
            Some(h) => find_icon(icons@, name@, size) == Some(h@),
            None => find_icon(icons@, name@, size) is None,
        },
{
    assert(icons@.skip(0) =~= icons@);
    for i in 0..icons.len()
        invariant
            find_icon(icons@, name@, size) == find_icon(icons@.skip(i as int), name@, size),
    {
        assert(icons@.skip(i as int).drop_first() =~= icons@.skip(i + 1));
        if icons[i].size == size && same(&icons[i].name, name) {
            return Some(icons[i].markup.clone());
        }
    }
    None
}

/// The mark of a value in a message.
pub open spec fn slot(name: Seq<char>) -> Seq<char> {
    seq!['{'] + name + seq!['}']
}

/// The first value whose mark `s` begins with; the number of values when there
/// is none.
pub open spec fn arg_at(s: Seq<char>, args: Seq<(Seq<char>, Seq<char>)>) -> int
    decreases args.len(),
{
    if args.len() == 0 || slot(args[0].0).is_prefix_of(s) {
        0
    } else {
        1 + arg_at(s, args.drop_first())
    }
}

/// `s` with every mark replaced by its value, from left to right. What a value
/// brings in is not looked at again.
pub open spec fn filled(s: Seq<char>, args: Seq<(Seq<char>, Seq<char>)>) -> Seq<char>
    decreases s.len(),
{
    if s.len() == 0 {
        Seq::empty()
    } else {
        let i = arg_at(s, args);
        if 0 <= i < args.len() && slot(args[i].0).len() <= s.len() {
            args[i].1 + filled(s.skip(slot(args[i].0).len() as int), args)
        } else {
            seq![s[0]] + filled(s.drop_first(), args)
        }
    }
}

/// The views of a list of values.
pub open spec fn args_view(args: Seq<(String, String)>) -> Seq<(Seq<char>, Seq<char>)> {
    args.map_values(|a: (String, String)| (a.0@, a.1@))
}

fn marks_at(v: &Vec<char>, i: usize, name: &str) -> (r: bool)
    requires
        i <= v@.len(),
    ensures
        r == slot(name@).is_prefix_of(v@.skip(i as int)),
{
    let p = chars(name);
    let ghost rest = v@.skip(i as int);
    let ghost mark = slot(name@);
    let n: usize = v.len();
    if n - i < 2 || n - i - 2 < p.len() {
        return false;
    }
    if v[i] != '{' || v[i + p.len() + 1] != '}' {
        proof {
            if mark.is_prefix_of(rest) {
                let k = p@.len() + 1int;
                assert(mark[0] == rest[0] && mark[k] == rest[k]);
            }
        }
        return false;
    }
    for k in 0..p.len()
        invariant
            p@ == name@,
            n == v@.len(),
            i + p@.len() + 2 <= n,
            rest == v@.skip(i as int),
            mark == slot(name@),
            forall|j: int| 0 <= j < k ==> p@[j] == v@[i + 1 + j],
    {
        if v[i + 1 + k] != p[k] {
            proof {
                if mark.is_prefix_of(rest) {
                    assert(mark[k + 1] == rest[k + 1]);
                }
            }
            return false;
        }
    }
    assert(mark =~= rest.take(mark.len() as int)) by {
        assert forall|j: int| 0 <= j < mark.len() implies mark[j] == rest[j] by {
            if 0 < j <= p@.len() {
                assert(p@[j - 1] == v@[i + 1 + (j - 1)]);
            }
        }
    }
    true
}

fn find_mark(v: &Vec<char>, i: usize, args: &Vec<(String, String)>) -> (r: usize)
    requires
        i <= v@.len(),
    ensures
        r as int == arg_at(v@.skip(i as int), args_view(args@)),
        r <= args@.len(),
        r < args@.len() ==> slot(args@[r as int].0@).is_prefix_of(v@.skip(i as int)),
{
    let ghost view = args_view(args@);
    let ghost rest = v@.skip(i as int);
    assert(view.skip(0) =~= view);
    for k in 0..args.len()
        invariant
            i <= v@.len(),
            view == args_view(args@),
            rest == v@.skip(i as int),
            arg_at(rest, view) == k + arg_at(rest, view.skip(k as int)),
    {
        assert(view.skip(k as int)[0] == (args@[k as int].0@, args@[k as int].1@));
        assert(view.skip(k as int).drop_first() =~= view.skip(k + 1));
        if marks_at(v, i, &args[k].0) {
            return k;
        }
    }
    args.len()
}

/// Fills values into a message.
pub fn fill(s: &str, args: &Vec<(String, String)>) -> (r: String)
    ensures
        r@ == filled(s@, args_view(args@)),
{
    let v = chars(s);
    let ghost view = args_view(args@);
    let mut out = String::new();
    let mut i: usize = 0;
    let n: usize = v.len();
    assert(v@.skip(0) =~= v@);
    assert(out@ + filled(v@, view) =~= filled(v@, view));
    while i < n
        invariant
            i <= n,
            n == v@.len(),
            v@ == s@,
            view == args_view(args@),
            filled(s@, view) == out@ + filled(v@.skip(i as int), view),
        decreases n - i,
    {
        let ghost rest = v@.skip(i as int);
        let k = find_mark(&v, i, args);
        if k < args.len() {
            let name = chars(&args[k].0);
            proof {
                let mark = slot(args@[k as int].0@);
                assert(view[k as int] == (args@[k as int].0@, args@[k as int].1@));
                assert(mark.len() == name@.len() + 2);
                assert(rest.skip(mark.len() as int) =~= v@.skip(i + mark.len()));
                assert((out@ + args@[k as int].1@) + filled(v@.skip(i + mark.len()), view)
                    =~= out@ + (args@[k as int].1@ + filled(v@.skip(i + mark.len()), view)));
            }
            out.append(&args[k].1);
            i = i + name.len() + 2;
        } else {
            proof {
                assert(rest.drop_first() =~= v@.skip(i + 1));
                assert(out@.push(v@[i as int]) + filled(v@.skip(i + 1), view) =~= out@ + (seq![
                    v@[i as int],
                ] + filled(v@.skip(i + 1), view)));
            }
            out.push(v[i]);
            i = i + 1;
        }
    }
    assert(v@.skip(n as int) =~= Seq::<char>::empty());
    assert(out@ + Seq::<char>::empty() =~= out@);
    out
}

impl Ui {
    /// The message for `key`.
    pub open spec fn message(&self, key: Seq<char>) -> Seq<char> {
        message_text(self.messages@, key)
    }

    /// The message for `key`, with `value` in place of every `{name}`.
    pub open spec fn message_with(
        &self,
        key: Seq<char>,
        name: Seq<char>,
        value: Seq<char>,
    ) -> Seq<char> {
        filled(self.message(key), seq![(name, value)])
    }

    /// The message for `key`, with two values filled in.
    pub open spec fn message_with_both(
        &self,
        key: Seq<char>,
        first: (Seq<char>, Seq<char>),
        second: (Seq<char>, Seq<char>),
    ) -> Seq<char> {
        filled(self.message(key), seq![first, second])
    }

    /// The icon of that name and size, nothing when there is none.
    pub open spec fn icon_markup(&self, name: Seq<char>, size: u32) -> Seq<char> {
        match find_icon(self.icons@, name, size) {
            Some(m) => m,
            None => Seq::empty(),
        }
    }

    /// The message for `key`.
    pub fn t(&self, key: &str) -> (r: String)
        ensures
            r@ == self.message(key@),
    {
        let ms = &self.messages;
        assert(ms@.skip(0) =~= ms@);
        for i in 0..ms.len()
            invariant
                ms == &self.messages,
                self.message(key@) == message_text(ms@.skip(i as int), key@),
        {
            assert(ms@.skip(i as int).drop_first() =~= ms@.skip(i + 1));
            if same(&ms[i].key, key) {
                return ms[i].text.clone();
            }
        }
        key.to_owned()
    }

    /// The message for `key`, with `value` in place of every `{name}`.
    pub fn t_with(&self, key: &str, name: &str, value: &str) -> (r: String)
        ensures
            r@ == self.message_with(key@, name@, value@),
    {
        let mut args: Vec<(String, String)> = Vec::new();
        args.push((name.to_owned(), value.to_owned()));
        assert(args_view(args@) =~= seq![(name@, value@)]);
        fill(&self.t(key), &args)
    }

    /// The message for `key`, with two values filled in.
    pub fn t_with_both(
        &self,
        key: &str,
        first: (&str, &str),
        second: (&str, &str),
    ) -> (r: String)
        ensures
            r@ == self.message_with_both(
                key@,
                (first.0@, first.1@),
                (second.0@, second.1@),
            ),
    {
        let mut args: Vec<(String, String)> = Vec::new();
        args.push((first.0.to_owned(), first.1.to_owned()));
        args.push((second.0.to_owned(), second.1.to_owned()));
        assert(args_view(args@) =~= seq![(first.0@, first.1@), (second.0@, second.1@)]);
        fill(&self.t(key), &args)
    }

    /// The icon of that name and size, nothing when there is none.
    pub fn icon(&self, name: &str, size: u32) -> (r: Html)
        ensures
            r@ == self.icon_markup(name@, size),
    {
        match lookup_icon(&self.icons, name, size) {
            Some(h) => h,
            None => Html::empty(),
        }
    }

    /// The logo of a connector, if it has one.
    pub fn logo(&self, key: &str, size: u32) -> (r: Option<Html>)
        ensures
            match r {
                Some(h) => find_icon(self.logos@, key@, size) == Some(h@),
                None => find_icon(self.logos@, key@, size) is None,
            },
    {
        lookup_icon(&self.logos, key, size)
    }
}

// ---------------------------------------------------------------------------
// Laws

/// Escaping a text piece by piece is escaping it whole.
pub proof fn escaped_concat(a: Seq<char>, b: Seq<char>)
    ensures
        escaped(a + b) == escaped(a) + escaped(b),
    decreases b.len(),
{
    if b.len() == 0 {
        assert(a + b =~= a);
        assert(escaped(a) + escaped(b) =~= escaped(a));
    } else {
        escaped_concat(a, b.drop_last());
        assert((a + b).drop_last() =~= a + b.drop_last());
        assert((a + b).last() == b.last());
    }
}

/// Escaped text cannot open a tag, close an attribute or start an element: it
/// holds none of `<`, `>`, `"` and `'`.
pub proof fn escaped_has_no_markup(s: Seq<char>)
    ensures
        forall|i: int|
            0 <= i < escaped(s).len() ==> {
                let c = #[trigger] escaped(s)[i];
                c != '<' && c != '>' && c != '"' && c != '\''
            },
    decreases s.len(),
{
    reveal_strlit("&amp;");
    reveal_strlit("&lt;");
    reveal_strlit("&gt;");
    reveal_strlit("&quot;");
    reveal_strlit("&#39;");
    if s.len() > 0 {
        escaped_has_no_markup(s.drop_last());
        let h = escaped(s.drop_last());
        assert forall|i: int| 0 <= i < escaped(s).len() implies {
            let c = #[trigger] escaped(s)[i];
            c != '<' && c != '>' && c != '"' && c != '\''
        } by {
            if i < h.len() {
                assert(escaped(s)[i] == h[i]);
            } else {
                assert(escaped(s)[i] == escaped_char(s.last())[i - h.len()]);
            }
        }
    }
}

/// A text without markup characters stands in the markup as it is.
pub proof fn escaped_plain(s: Seq<char>)
    requires
        forall|i: int|
            0 <= i < s.len() ==> {
                let c = #[trigger] s[i];
                c != '&' && c != '<' && c != '>' && c != '"' && c != '\''
            },
    ensures
        escaped(s) == s,
    decreases s.len(),
{
    if s.len() > 0 {
        let d = s.drop_last();
        assert forall|i: int| 0 <= i < d.len() implies {
            let c = #[trigger] d[i];
            c != '&' && c != '<' && c != '>' && c != '"' && c != '\''
        } by {
            assert(d[i] == s[i]);
        }
        escaped_plain(d);
        assert(s[s.len() - 1] == s.last());
        assert(d + seq![s.last()] =~= s);
    }
}

/// A message is the first text that is known under its key; without one, the key itself is
/// shown.
pub proof fn a_message_is_found_by_its_key(messages: Seq<Message>, key: Seq<char>, i: int)
    ensures
        0 <= i < messages.len() && messages[i].key@ == key && (forall|j: int|
            0 <= j < i ==> (#[trigger] messages[j]).key@ != key) ==> message_text(messages, key)
            == messages[i].text@,
        (forall|j: int| 0 <= j < messages.len() ==> (#[trigger] messages[j]).key@ != key)
            ==> message_text(messages, key) == key,
    decreases messages.len(),
{
    if messages.len() > 0 {
        let rest = messages.drop_first();
        assert forall|j: int| 0 <= j < rest.len() implies #[trigger] rest[j] == messages[j + 1] by {}
        if messages[0].key@ != key {
            a_message_is_found_by_its_key(rest, key, i - 1);
        }
    }
}

/// An icon is the first that is known under its name in its size; without one, there is
/// none.
pub proof fn an_icon_is_found_by_its_name(icons: Seq<Icon>, name: Seq<char>, size: u32, i: int)
    ensures
        0 <= i < icons.len() && icons[i].name@ == name && icons[i].size == size && (forall|j: int|
            0 <= j < i ==> (#[trigger] icons[j]).name@ != name || icons[j].size != size)
            ==> find_icon(icons, name, size) == Some(icons[i].markup@),
        (forall|j: int|
            0 <= j < icons.len() ==> (#[trigger] icons[j]).name@ != name || icons[j].size != size)
            <==> find_icon(icons, name, size) is None,
    decreases icons.len(),
{
    if icons.len() > 0 {
        let rest = icons.drop_first();
        assert forall|j: int| 0 <= j < rest.len() implies #[trigger] rest[j] == icons[j + 1] by {}
        if icons[0].name@ != name || icons[0].size != size {
            an_icon_is_found_by_its_name(rest, name, size, i - 1);
            if forall|j: int|
                0 <= j < rest.len() ==> (#[trigger] rest[j]).name@ != name || rest[j].size != size {
                assert forall|j: int| 0 <= j < icons.len() implies (#[trigger] icons[j]).name@
                    != name || icons[j].size != size by {
                    if j > 0 {
                        assert(rest[j - 1] == icons[j]);
                    }
                }
            }
        }
    }
}

proof fn lemma_no_slot(s: Seq<char>, args: Seq<(Seq<char>, Seq<char>)>)
    requires
        s.len() > 0,
        s[0] != '{',
    ensures
        arg_at(s, args) == args.len(),
    decreases args.len(),
{
    if args.len() > 0 {
        assert(slot(args[0].0)[0] == '{');
        if slot(args[0].0).is_prefix_of(s) {
            assert(s.subrange(0, slot(args[0].0).len() as int)[0] == s[0]);
        }
        lemma_no_slot(s, args.drop_first());
    }
}

/// Text without a slot stays as it is, in front of whatever follows.
pub proof fn plain_text_is_kept(
    plain: Seq<char>,
    rest: Seq<char>,
    args: Seq<(Seq<char>, Seq<char>)>,
)
    requires
        !plain.contains('{'),
    ensures
        filled(plain + rest, args) == plain + filled(rest, args),
        filled(plain, args) == plain,
    decreases plain.len(),
{
    assert(plain + Seq::<char>::empty() =~= plain);
    assert(Seq::<char>::empty() + rest =~= rest);
    assert(Seq::<char>::empty() + filled(rest, args) =~= filled(rest, args));
    if plain.len() > 0 {
        let d = plain.drop_first();
        let s = plain + rest;
        assert(plain.contains(plain[0]));
        assert forall|c: char| d.contains(c) implies plain.contains(c) by {
            let k = choose|k: int| 0 <= k < d.len() && d[k] == c;
            assert(plain[k + 1] == c);
        }
        plain_text_is_kept(d, rest, args);
        lemma_no_slot(s, args);
        lemma_no_slot(plain, args);
        assert(s.drop_first() =~= d + rest);
        assert(seq![plain[0]] + (d + filled(rest, args)) =~= plain + filled(rest, args));
        assert(seq![plain[0]] + d =~= plain);
    } else {
        assert(plain =~= Seq::<char>::empty());
    }
}

proof fn lemma_slot_here(name: Seq<char>, rest: Seq<char>)
    ensures
        slot(name).is_prefix_of(slot(name) + rest),
        (slot(name) + rest).skip(slot(name).len() as int) == rest,
{
    let s = slot(name) + rest;
    assert(s.subrange(0, slot(name).len() as int) =~= slot(name));
    assert(s.skip(slot(name).len() as int) =~= rest);
}

/// A value takes the place of its slot in a message, and the text around it stays.
pub proof fn a_value_takes_the_place_of_its_slot(
    before: Seq<char>,
    after: Seq<char>,
    name: Seq<char>,
    value: Seq<char>,
)
    requires
        !before.contains('{'),
        !after.contains('{'),
    ensures
        filled(before + slot(name) + after, seq![(name, value)]) == before + value + after,
{
    let args = seq![(name, value)];
    let s = slot(name) + after;
    assert(before + slot(name) + after =~= before + s);
    plain_text_is_kept(before, s, args);
    plain_text_is_kept(after, Seq::empty(), args);
    lemma_slot_here(name, after);
    assert(arg_at(s, args) == 0);
    assert(filled(s, args) == value + after);
    assert(before + (value + after) =~= before + value + after);
}

/// Two values take the places of their slots, each of its own.
pub proof fn each_value_takes_its_own_place(
    before: Seq<char>,
    between: Seq<char>,
    after: Seq<char>,
    first: (Seq<char>, Seq<char>),
    second: (Seq<char>, Seq<char>),
)
    requires
        !before.contains('{'),
        !between.contains('{'),
        !after.contains('{'),
        !first.0.contains('}'),
        !second.0.contains('}'),
        first.0 != second.0,
    ensures
        filled(
            before + slot(first.0) + between + slot(second.0) + after,
            seq![first, second],
        ) == before + first.1 + between + second.1 + after,
{
    let args = seq![first, second];
    let tail = slot(second.0) + after;
    let s = slot(first.0) + (between + tail);
    assert(before + slot(first.0) + between + slot(second.0) + after =~= before + s);
    plain_text_is_kept(before, s, args);
    plain_text_is_kept(between, tail, args);
    plain_text_is_kept(after, Seq::empty(), args);
    lemma_slot_here(first.0, between + tail);
    lemma_slot_here(second.0, after);
    assert(arg_at(s, args) == 0);
    assert(!slot(first.0).is_prefix_of(tail)) by {
        if slot(first.0).is_prefix_of(tail) {
            lemma_slots_differ(first.0, second.0, after);
        }
    }
    assert(args.drop_first() =~= seq![second]);
    assert(seq![second][0] == second);
    assert(arg_at(tail, seq![second]) == 0);
    assert(arg_at(tail, args) == 1);
    assert(filled(tail, args) == second.1 + after);
    assert(filled(s, args) == first.1 + (between + (second.1 + after)));
    assert(before + (first.1 + (between + (second.1 + after))) =~= before + first.1 + between
        + second.1 + after);
}

proof fn lemma_slots_differ(a: Seq<char>, b: Seq<char>, after: Seq<char>)
    requires
        !a.contains('}'),
        !b.contains('}'),
        slot(a).is_prefix_of(slot(b) + after),
    ensures
        a == b,
{
    let s = slot(b) + after;
    let n = slot(a).len() as int;
    assert forall|k: int| 0 <= k < n implies #[trigger] slot(a)[k] == s[k] by {
        assert(s.subrange(0, n)[k] == s[k]);
    }
    if a.len() < b.len() {
        assert(slot(a)[a.len() as int + 1] == '}');
        assert(s[a.len() as int + 1] == b[a.len() as int]);
        assert(b.contains(b[a.len() as int]));
    } else if a.len() > b.len() {
        assert(s[b.len() as int + 1] == '}');
        assert(slot(a)[b.len() as int + 1] == a[b.len() as int]);
        assert(a.contains(a[b.len() as int]));
    } else {
        assert forall|k: int| 0 <= k < a.len() implies a[k] == b[k] by {
            assert(slot(a)[k + 1] == s[k + 1]);
        }
        assert(a =~= b);
    }
}

/// Texts and numbers are added behind what is there: texts escaped, markup as it is.
pub proof fn what_is_added_comes_behind(
    h: Html,
    other: Html,
    s: &str,
    n: u64,
    ui: &Ui,
    raw: Html,
    text: Html,
    html: Html,
    num: Html,
    msg: Html,
)
    requires
        call_ensures(Html::raw, (h, s), raw),
        call_ensures(Html::text, (h, s), text),
        call_ensures(Html::html, (h, other), html),
        call_ensures(Html::num, (h, n), num),
        call_ensures(Html::msg, (h, ui, s), msg),
    ensures
        raw@ == h@ + s@,
        text@ == h@ + escaped(s@),
        html@ == h@ + other@,
        num@ == h@ + decimal(n as nat),
        msg@ == h@ + escaped(ui.message(s@)),
{
}

} // verus!
