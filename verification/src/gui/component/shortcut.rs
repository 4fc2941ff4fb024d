//! The page where the user picks the three shortcut keys.

use vstd::prelude::*;

verus! {

/// A choice of key (by its text) for one of the shortcuts.
pub enum Shortcuts {
    ManageTransmission(String),
    BlanckingScreen(String),
    TerminateSession(String),
}

pub enum ShortcutMessage {
    ManageTransmission(String),
    BlanckingScreen(String),
    TerminateSession(String),
}

/// The texts of the chosen keys, as shown in the three pick lists.
pub struct Shortcut {
    pub manage_transmission: String,
    pub blancking_screen: String,
    pub terminate_session: String,
    pub err_key_set: bool,
}

/// The keys of `all` that no other shortcut uses, in order.
pub open spec fn free_keys(all: Seq<Seq<char>>, taken1: Seq<char>, taken2: Seq<char>) -> Seq<Seq<char>> {
    all.filter(|k: Seq<char>| k != taken1 && k != taken2)
}

/// The shortcuts whose keys a pick list hides: the other two.
#[derive(Clone, Copy, Debug, PartialEq, Eq, Structural)]
pub enum ShortcutKind {
    ManageTransmission,
    BlanckingScreen,
    TerminateSession,
}

impl Shortcut {
    /// A new choice replaces the text of that shortcut only.
    pub fn update(&mut self, message: ShortcutMessage)
        ensures
            match message {
                ShortcutMessage::ManageTransmission(k) => final(self).manage_transmission@ == k@
                    && final(self).blancking_screen@ == old(self).blancking_screen@
                    && final(self).terminate_session@ == old(self).terminate_session@,
                ShortcutMessage::BlanckingScreen(k) => final(self).blancking_screen@ == k@
                    && final(self).manage_transmission@ == old(self).manage_transmission@
                    && final(self).terminate_session@ == old(self).terminate_session@,
                ShortcutMessage::TerminateSession(k) => final(self).terminate_session@ == k@
                    && final(self).manage_transmission@ == old(self).manage_transmission@
                    && final(self).blancking_screen@ == old(self).blancking_screen@,
            },
            final(self).err_key_set == old(self).err_key_set,
    {
        match message {
            ShortcutMessage::ManageTransmission(key) => {
                self.manage_transmission = key;
            },
            ShortcutMessage::BlanckingScreen(key) => {
                self.blancking_screen = key;
            },
            ShortcutMessage::TerminateSession(key) => {
                self.terminate_session = key;
            },
        }
    }

    /// The keys that the pick list of shortcut `kind` offers: those of
    /// `all` that neither other shortcut has taken.
    pub fn selectable_keys(&self, all: &Vec<String>, kind: ShortcutKind) -> (keys: Vec<String>)
        ensures
            keys@.map_values(|s: String| s@) == match kind {
                ShortcutKind::ManageTransmission => free_keys(all@.map_values(|s: String| s@), self.blancking_screen@, self.terminate_session@),
                ShortcutKind::BlanckingScreen => free_keys(all@.map_values(|s: String| s@), self.manage_transmission@, self.terminate_session@),
                ShortcutKind::TerminateSession => free_keys(all@.map_values(|s: String| s@), self.blancking_screen@, self.manage_transmission@),
            },
    {
        let (a, b) = match kind {
            ShortcutKind::ManageTransmission => (&self.blancking_screen, &self.terminate_session),
            ShortcutKind::BlanckingScreen => (&self.manage_transmission, &self.terminate_session),
            ShortcutKind::TerminateSession => (&self.blancking_screen, &self.manage_transmission),
        };
        let ghost all_v = all@.map_values(|s: String| s@);
        let ghost pred = |k: Seq<char>| k != a@ && k != b@;
        let mut keys: Vec<String> = Vec::new();
        let n = all.len();
        let mut i: usize = 0;
        while i < n
            invariant
                n == all@.len(),
                all_v == all@.map_values(|s: String| s@),
                pred == (|k: Seq<char>| k != a@ && k != b@),
                i <= n,
                keys@.map_values(|s: String| s@) == all_v.take(i as int).filter(pred),
            decreases n - i,
        {
            proof {
                reveal_with_fuel(Seq::<_>::filter, 1);
                assert(all_v.take(i + 1).drop_last() =~= all_v.take(i as int));
                assert(all_v.take(i + 1).last() == all@[i as int]@);
            }
            if !(all[i] == *a) && !(all[i] == *b) {
                let k = all[i].clone();
                let ghost before = keys@;
                keys.push(k);
                assert(keys@.map_values(|s: String| s@) =~= before.map_values(|s: String| s@).push(all@[i as int]@));
            }
            i = i + 1;
        }
        assert(all_v.take(n as int) =~= all_v);
        keys
    }
}

} // verus!
