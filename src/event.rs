//! The log event model: an ordered list of named fields.
use vstd::prelude::*;

verus! {

/// The value of one field of a log event.
#[derive(Debug)]
pub enum Value {
    /// Free text.
    Bytes(String),
    /// An instant, as milliseconds since the Unix epoch.
    Timestamp(i64),
}

/// One named field of a log event.
#[derive(Debug)]
pub struct Field {
    pub key: String,
    pub value: Value,
    /// Set for fields that a user put there explicitly; such fields make the event structured.
    pub explicit: bool,
}

/// A log event: a mapping from field names to values, kept in the order in
/// which the fields were inserted. Well-formed events (`wf`) hold each key
/// once; the constructors make such events and `insert_*` and `remove` keep
/// them so.
#[derive(Debug)]
pub struct LogEvent {
    pub fields: Vec<Field>,
}

/// Whether no two fields of `s` share a key.
pub open spec fn keys_unique(s: Seq<Field>) -> bool {
    forall|i: int, j: int| 0 <= i < j < s.len() ==> #[trigger] s[i].key@ != #[trigger] s[j].key@
}

/// The reserved field that holds the event's time.
pub open spec fn timestamp_key() -> Seq<char> {
    "timestamp"@
}

/// The reserved field that holds the event's free-text message.
pub open spec fn message_key() -> Seq<char> {
    "message"@
}

/// The value stored under `k`; the last field with that key wins.
pub open spec fn lookup(s: Seq<Field>, k: Seq<char>) -> Option<Value>
    decreases s.len(),
{
    if s.len() == 0 {
        None
    } else if s.last().key@ == k {
        Some(s.last().value)
    } else {
        lookup(s.drop_last(), k)
    }
}

/// The fields of `s` whose key is not `k`, in order.
pub open spec fn removed(s: Seq<Field>, k: Seq<char>) -> Seq<Field> {
    s.filter(key_is_not(k))
}

/// Whether a field's key is other than `k`.
pub open spec fn key_is_not(k: Seq<char>) -> spec_fn(Field) -> bool {
    |f: Field| f.key@ != k
}

/// Whether some field was put there explicitly.
pub open spec fn structured(s: Seq<Field>) -> bool {
    exists|i: int| 0 <= i < s.len() && #[trigger] s[i].explicit
}

/// The milliseconds of the reserved timestamp field, where it holds an instant.
pub open spec fn stamp_of(s: Seq<Field>) -> Option<i64> {
    match lookup(s, timestamp_key()) {
        Some(Value::Timestamp(ms)) => Some(ms),
        _ => None,
    }
}

proof fn lemma_removed_step(s: Seq<Field>, k: Seq<char>, i: int)
    requires
        0 <= i < s.len(),
    ensures
        removed(s.subrange(0, i + 1), k) == (if s[i].key@ != k {
            removed(s.subrange(0, i), k).push(s[i])
        } else {
            removed(s.subrange(0, i), k)
        }),
{
    reveal(Seq::filter);
    assert(s.subrange(0, i + 1).drop_last() =~= s.subrange(0, i));
}

proof fn lemma_lookup_step(s: Seq<Field>, k: Seq<char>, i: int)
    requires
        0 <= i < s.len(),
    ensures
        lookup(s.subrange(0, i + 1), k) == (if s[i].key@ == k {
            Some(s[i].value)
        } else {
            lookup(s.subrange(0, i), k)
        }),
{
    assert(s.subrange(0, i + 1).drop_last() =~= s.subrange(0, i));
}

/// Whether two keys are equal.
fn same_key(a: &String, b: &str) -> (r: bool)
    ensures
        r == (a@ == b@),
{
    let b = b.to_string();
    *a == b
}

impl Value {
    /// A copy of the value.
    pub fn copied(&self) -> (r: Value)
        ensures
            r == *self,
    {
        match self {
            Value::Bytes(s) => Value::Bytes(s.clone()),
            Value::Timestamp(ms) => Value::Timestamp(*ms),
        }
    }
}

impl Field {
    /// A copy of the field.
    pub fn copied(&self) -> (r: Field)
        ensures
            r == *self,
    {
        Field { key: self.key.clone(), value: self.value.copied(), explicit: self.explicit }
    }
}

impl LogEvent {
    /// Whether each key is held once.
    pub open spec fn wf(&self) -> bool {
        keys_unique(self.fields@)
    }

    /// Whether each key is held once.
    pub fn has_unique_keys(&self) -> (r: bool)
        ensures
            r == self.wf(),
    {
        let mut j: usize = 0;
        while j < self.fields.len()
            invariant
                j <= self.fields.len(),
                forall|a: int, b: int| 0 <= a < b < j ==>
                    #[trigger] self.fields@[a].key@ != #[trigger] self.fields@[b].key@,
            decreases self.fields.len() - j,
        {
            let mut i: usize = 0;
            while i < j
                invariant
                    i <= j < self.fields.len(),
                    forall|a: int| 0 <= a < i ==>
                        #[trigger] self.fields@[a].key@ != self.fields@[j as int].key@,
                decreases j - i,
            {
                if self.fields[i].key == self.fields[j].key {
                    return false;
                }
                i = i + 1;
            }
            j = j + 1;
        }
        true
    }

    /// An event with no fields.
    pub fn new() -> (r: LogEvent)
        ensures
            r.fields@ == Seq::<Field>::empty(),
            r.wf(),
    {
        LogEvent { fields: Vec::new() }
    }

    /// An event that carries `message` and the current time, both implicitly.
    pub fn from_message(message: String) -> (r: LogEvent)
        ensures
            r.fields.len() == 2,
            r.fields@[0].key@ == message_key(),
            r.fields@[0].value == Value::Bytes(message),
            !r.fields@[0].explicit,
            r.fields@[1].key@ == timestamp_key(),
            r.fields@[1].value is Timestamp,
            !r.fields@[1].explicit,
            r.wf(),
    {
        let now = crate::encode::now_millis();
        let mut fields: Vec<Field> = Vec::new();
        proof { reveal_strlit("message"); reveal_strlit("timestamp"); }
        fields.push(Field { key: "message".to_string(), value: Value::Bytes(message), explicit: false });
        fields.push(Field { key: "timestamp".to_string(), value: Value::Timestamp(now), explicit: false });
        assert("message"@.len() != "timestamp"@.len());
        LogEvent { fields }
    }

    /// The value stored under `key`.
    pub fn get(&self, key: &str) -> (r: Option<&Value>)
        ensures
            r == match lookup(self.fields@, key@) { Some(v) => Some(&v), None => None },
    {
        let mut i: usize = self.fields.len();
        assert(self.fields@.subrange(0, i as int) =~= self.fields@);
        while i > 0
            invariant
                i <= self.fields.len(),
                lookup(self.fields@, key@) == lookup(self.fields@.subrange(0, i as int), key@),
            decreases i,
        {
            proof { lemma_lookup_step(self.fields@, key@, i - 1); }
            if same_key(&self.fields[i - 1].key, key) {
                return Some(&self.fields[i - 1].value);
            }
            i = i - 1;
        }
        assert(self.fields@.subrange(0, 0) =~= Seq::<Field>::empty());
        None
    }

    /// Whether some field was put there explicitly.
    pub fn is_structured(&self) -> (r: bool)
        ensures
            r == structured(self.fields@),
    {
        let mut i: usize = 0;
        while i < self.fields.len()
            invariant
                i <= self.fields.len(),
                forall|j: int| 0 <= j < i ==> !(#[trigger] self.fields@[j]).explicit,
            decreases self.fields.len() - i,
        {
            if self.fields[i].explicit {
                return true;
            }
            i = i + 1;
        }
        false
    }

    /// Takes every field stored under `key` out of the event, and returns the
    /// value that was visible under it.
    pub fn remove(&mut self, key: &str) -> (r: Option<Value>)
        ensures
            r == lookup(old(self).fields@, key@),
            final(self).fields@ == removed(old(self).fields@, key@),
            forall|m: int| 0 <= m < final(self).fields.len() ==>
                (#[trigger] final(self).fields@[m]).key@ != key@,
            old(self).wf() ==> final(self).wf(),
    {
        let ghost s = self.fields@;
        let mut rest: Vec<Field> = Vec::new();
        let mut found: Option<Value> = None;
        let mut i: usize = 0;
        while i < self.fields.len()
            invariant
                self.fields@ == s,
                i <= s.len(),
                rest@ == removed(s.subrange(0, i as int), key@),
                found == lookup(s.subrange(0, i as int), key@),
                forall|m: int| 0 <= m < rest.len() ==> (#[trigger] rest@[m]).key@ != key@,
                forall|m: int| 0 <= m < rest.len() ==>
                    exists|j: int| 0 <= j < i && #[trigger] rest@[m] == s[j],
                keys_unique(s) ==> keys_unique(rest@),
            decreases s.len() - i,
        {
            proof {
                lemma_removed_step(s, key@, i as int);
                lemma_lookup_step(s, key@, i as int);
            }
            let ghost prev = rest@;
            if same_key(&self.fields[i].key, key) {
                found = Some(self.fields[i].value.copied());
            } else {
                rest.push(self.fields[i].copied());
                proof {
                    assert forall|m: int| 0 <= m < rest.len() implies
                        exists|j: int| 0 <= j < i + 1 && #[trigger] rest@[m] == s[j] by {
                        if m < prev.len() {
                            assert(rest@[m] == prev[m]);
                        } else {
                            assert(rest@[m] == s[i as int]);
                        }
                    }
                    if keys_unique(s) {
                        assert forall|a: int, b: int| 0 <= a < b < rest.len() implies
                            #[trigger] rest@[a].key@ != #[trigger] rest@[b].key@ by {
                            if b == prev.len() {
                                assert(rest@[a] == prev[a]);
                                let j = choose|j: int| 0 <= j < i && #[trigger] prev[a] == s[j];
                                assert(s[j].key@ != s[i as int].key@);
                            } else {
                                assert(rest@[a] == prev[a] && rest@[b] == prev[b]);
                            }
                        }
                    }
                }
            }
            i = i + 1;
        }
        assert(s.subrange(0, s.len() as int) =~= s);
        self.fields = rest;
        found
    }

    /// Stores `value` under `key`, replacing what was there.
    fn insert_field(&mut self, key: String, value: Value, explicit: bool)
        ensures
            final(self).fields@ == removed(old(self).fields@, key@).push(
                Field { key, value, explicit },
            ),
            old(self).wf() ==> final(self).wf(),
    {
        let _ = self.remove(key.as_str());
        let ghost prev = self.fields@;
        self.fields.push(Field { key, value, explicit });
        proof {
            assert forall|m: int| 0 <= m < prev.len() implies #[trigger] self.fields@[m] == prev[m] by {}
        }
    }

    /// Stores `value` under `key` as a field put there by the user.
    pub fn insert_explicit(&mut self, key: String, value: Value)
        ensures
            final(self).fields@ == removed(old(self).fields@, key@).push(
                Field { key, value, explicit: true },
            ),
            old(self).wf() ==> final(self).wf(),
    {
        self.insert_field(key, value, true);
    }

    /// Stores `value` under `key` as a field that the event carries implicitly.
    pub fn insert_implicit(&mut self, key: String, value: Value)
        ensures
            final(self).fields@ == removed(old(self).fields@, key@).push(
                Field { key, value, explicit: false },
            ),
            old(self).wf() ==> final(self).wf(),
    {
        self.insert_field(key, value, false);
    }
}

} // verus!
