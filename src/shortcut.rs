use vstd::prelude::*;
use vstd::string::*;

verus! {

/// A modifier key that can take part in a combination.
#[derive(Clone, Copy, Debug, PartialEq, Eq, Structural)]
pub enum Modifier {
    Control,
    Alt,
    Shift,
    Meta,
}

/// A set of modifier keys, one flag per modifier.
#[derive(Clone, Copy, Debug, PartialEq, Eq, Structural)]
pub struct Modifiers {
    pub control: bool,
    pub alt: bool,
    pub shift: bool,
    pub meta: bool,
}

impl View for Modifiers {
    type V = Set<Modifier>;

    open spec fn view(&self) -> Set<Modifier> {
        Set::new(
            |m: Modifier|
                match m {
                    Modifier::Control => self.control,
                    Modifier::Alt => self.alt,
                    Modifier::Shift => self.shift,
                    Modifier::Meta => self.meta,
                },
        )
    }
}

impl Modifiers {
    /// The set with no modifier in it.
    pub fn empty() -> (r: Modifiers)
        ensures
            r@ == Set::<Modifier>::empty(),
    {
        let r = Modifiers { control: false, alt: false, shift: false, meta: false };
        assert(r@ =~= Set::<Modifier>::empty());
        r
    }

    /// The set with `m` added.
    pub fn with(self, m: Modifier) -> (r: Modifiers)
        ensures
            r@ == self@.insert(m),
    {
        let mut r = self;
        match m {
            Modifier::Control => r.control = true,
            Modifier::Alt => r.alt = true,
            Modifier::Shift => r.shift = true,
            Modifier::Meta => r.meta = true,
        }
        assert(r@ =~= self@.insert(m));
        r
    }

    pub fn contains(&self, m: Modifier) -> (r: bool)
        ensures
            r == self@.contains(m),
    {
        match m {
            Modifier::Control => self.control,
            Modifier::Alt => self.alt,
            Modifier::Shift => self.shift,
            Modifier::Meta => self.meta,
        }
    }
}

/// Two modifier sets are equal as values exactly when they hold the same modifiers.
pub proof fn lemma_modifiers_eq_iff_same_set(a: Modifiers, b: Modifiers)
    ensures
        (a == b) <==> (a@ == b@),
{
    if a@ == b@ {
        assert(a@.contains(Modifier::Control) == b@.contains(Modifier::Control));
        assert(a@.contains(Modifier::Alt) == b@.contains(Modifier::Alt));
        assert(a@.contains(Modifier::Shift) == b@.contains(Modifier::Shift));
        assert(a@.contains(Modifier::Meta) == b@.contains(Modifier::Meta));
    }
}

/// The key of a combination: a letter `A`..`Z`, a digit `0`..`9`, a function
/// key `F<n>`, or one of a few named keys.
#[derive(Clone, Copy, Debug, PartialEq, Eq, Structural)]
pub enum KeyCode {
    Letter(char),
    Digit(char),
    Function(u8),
    Space,
    Enter,
    Escape,
    Tab,
    Backspace,
    Delete,
    ArrowUp,
    ArrowDown,
    ArrowLeft,
    ArrowRight,
}

pub open spec fn digit_char(d: nat) -> char
    recommends
        d < 10,
{
    ('0' as nat + d) as char
}

/// The decimal digits of `n`, most significant first.
pub open spec fn decimal(n: nat) -> Seq<char>
    decreases n,
{
    if n < 10 {
        seq![digit_char(n)]
    } else {
        decimal(n / 10).push(digit_char(n % 10))
    }
}

impl KeyCode {
    /// The letter key for `c`, upper or lower case; `None` for any other character.
    pub fn letter(c: char) -> (r: Option<KeyCode>)
        ensures
            ('A' <= c <= 'Z') ==> r == Some(KeyCode::Letter(c)),
            ('a' <= c <= 'z') ==> r == Some(KeyCode::Letter(((c as u32) - 32) as char)),
            !('A' <= c <= 'Z' || 'a' <= c <= 'z') ==> r is None,
    {
        if 'A' <= c && c <= 'Z' {
            Some(KeyCode::Letter(c))
        } else if 'a' <= c && c <= 'z' {
            let u: u8 = (c as u32 - 32) as u8;
            Some(KeyCode::Letter(u as char))
        } else {
            None
        }
    }

    /// The readable name of the key.
    pub open spec fn label(self) -> Seq<char> {
        match self {
            KeyCode::Letter(c) => seq![c],
            KeyCode::Digit(c) => seq![c],
            KeyCode::Function(n) => seq!['F'] + decimal(n as nat),
            KeyCode::Space => "Space"@,
            KeyCode::Enter => "Enter"@,
            KeyCode::Escape => "Escape"@,
            KeyCode::Tab => "Tab"@,
            KeyCode::Backspace => "Backspace"@,
            KeyCode::Delete => "Delete"@,
            KeyCode::ArrowUp => "Up"@,
            KeyCode::ArrowDown => "Down"@,
            KeyCode::ArrowLeft => "Left"@,
            KeyCode::ArrowRight => "Right"@,
        }
    }
}

/// Relies on `String::push`: appends `c` at the end of `s`.
#[verifier::external_body]
fn push_char(s: &mut String, c: char)
    ensures
        final(s)@ == old(s)@.push(c),
{
    s.push(c)
}

fn push_digit(s: &mut String, d: u8)
    requires
        d < 10,
    ensures
        final(s)@ == old(s)@.push(digit_char(d as nat)),
{
    let c: u8 = 48 + d;
    push_char(s, c as char);
}

/// Appends the decimal digits of `n`.
fn push_decimal(s: &mut String, n: u8)
    ensures
        final(s)@ == old(s)@ + decimal(n as nat),
{
    reveal_with_fuel(decimal, 3);
    if n >= 100 {
        push_digit(s, n / 100);
    }
    if n >= 10 {
        push_digit(s, (n / 10) % 10);
    }
    push_digit(s, n % 10);
    assert(final(s)@ =~= old(s)@ + decimal(n as nat));
}

impl KeyCode {
    /// Appends the key's name to `s`.
    pub fn push_label(&self, s: &mut String)
        ensures
            final(s)@ == old(s)@ + self.label(),
    {
        match self {
            KeyCode::Letter(c) => {
                push_char(s, *c);
                assert(final(s)@ =~= old(s)@ + self.label());
            },
            KeyCode::Digit(c) => {
                push_char(s, *c);
                assert(final(s)@ =~= old(s)@ + self.label());
            },
            KeyCode::Function(n) => {
                push_char(s, 'F');
                push_decimal(s, *n);
                assert(final(s)@ =~= old(s)@ + self.label());
            },
            KeyCode::Space => s.append("Space"),
            KeyCode::Enter => s.append("Enter"),
            KeyCode::Escape => s.append("Escape"),
            KeyCode::Tab => s.append("Tab"),
            KeyCode::Backspace => s.append("Backspace"),
            KeyCode::Delete => s.append("Delete"),
            KeyCode::ArrowUp => s.append("Up"),
            KeyCode::ArrowDown => s.append("Down"),
            KeyCode::ArrowLeft => s.append("Left"),
            KeyCode::ArrowRight => s.append("Right"),
        }
    }
}

/// A key combination: a set of modifiers held together with one key.
#[derive(Clone, Copy, Debug, PartialEq, Eq, Structural)]
pub struct ShortcutSpec {
    pub modifiers: Modifiers,
    pub key: KeyCode,
}

/// `name` followed by `+` when the flag is set, else nothing.
pub open spec fn part(flag: bool, name: Seq<char>) -> Seq<char> {
    if flag {
        name + "+"@
    } else {
        Seq::empty()
    }
}

impl ShortcutSpec {
    pub fn new(modifiers: Modifiers, key: KeyCode) -> (r: ShortcutSpec)
        ensures
            r.modifiers == modifiers,
            r.key == key,
    {
        ShortcutSpec { modifiers, key }
    }

    /// The readable label of the combination: the modifiers in the order
    /// Control, Alt, Shift, Meta, each followed by `+`, then the key.
    pub open spec fn label(self) -> Seq<char> {
        part(self.modifiers.control, "Control"@) + part(self.modifiers.alt, "Alt"@) + part(
            self.modifiers.shift,
            "Shift"@,
        ) + part(self.modifiers.meta, "Meta"@) + self.key.label()
    }

    /// The readable label of the combination, such as `Alt+Shift+P`.
    pub fn label_string(&self) -> (r: String)
        ensures
            r@ == self.label(),
            r@.len() > 0,
    {
        let mut s = String::new();
        if self.modifiers.control {
            s.append("Control");
            s.append("+");
        }
        let ghost s1 = s@;
        if self.modifiers.alt {
            s.append("Alt");
            s.append("+");
        }
        let ghost s2 = s@;
        if self.modifiers.shift {
            s.append("Shift");
            s.append("+");
        }
        let ghost s3 = s@;
        if self.modifiers.meta {
            s.append("Meta");
            s.append("+");
        }
        let ghost s4 = s@;
        self.key.push_label(&mut s);
        proof {
            assert(s1 =~= part(self.modifiers.control, "Control"@));
            assert(s2 =~= s1 + part(self.modifiers.alt, "Alt"@));
            assert(s3 =~= s2 + part(self.modifiers.shift, "Shift"@));
            assert(s4 =~= s3 + part(self.modifiers.meta, "Meta"@));
            assert(s@ =~= self.label());
            lemma_key_label_nonempty(self.key);
        }
        s
    }
}

/// Every key has a name of at least one character.
pub proof fn lemma_key_label_nonempty(k: KeyCode)
    ensures
        k.label().len() > 0,
{
    reveal_strlit("Space");
    reveal_strlit("Enter");
    reveal_strlit("Escape");
    reveal_strlit("Tab");
    reveal_strlit("Backspace");
    reveal_strlit("Delete");
    reveal_strlit("Up");
    reveal_strlit("Down");
    reveal_strlit("Left");
    reveal_strlit("Right");
}

} // verus!
