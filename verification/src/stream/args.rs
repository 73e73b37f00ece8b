//! Arguments for opening a stream.

use crate::sample::Sample;
use crate::text::{
    contains_char, format_decimal, format_key_value, join, join_strings, key_value,
    lemma_concat_chars, lemma_decimal_chars, lemma_join_chars, strings_view, decimal,
};
use core::marker::PhantomData;
use vstd::prelude::*;
use vstd::slice::slice_to_vec;

verus! {

/// The sample format in host memory.
#[derive(Clone, Copy, Debug, PartialEq, Eq, Structural)]
pub enum CpuFormat {
    ComplexFloat64,
    ComplexFloat32,
    ComplexInt16,
    ComplexInt8,
}

/// The sample format on the transport, which may differ from the format in
/// memory.
#[derive(Clone, Copy, Debug, PartialEq, Eq, Structural)]
pub enum OtwFormat {
    ComplexInt16,
    ComplexInt12,
    ComplexInt8,
    Int16,
    Int8,
}

/// What a transmit stream does when it runs out of samples.
#[derive(Clone, Copy, Debug, PartialEq, Eq, Structural)]
pub enum UnderflowPolicy {
    NextBurst,
    NextPacket,
}

impl CpuFormat {
    /// The tag that the driver knows this format by.
    pub open spec fn spec_str(self) -> Seq<char> {
        match self {
            CpuFormat::ComplexFloat64 => "fc64"@,
            CpuFormat::ComplexFloat32 => "fc32"@,
            CpuFormat::ComplexInt16 => "sc16"@,
            CpuFormat::ComplexInt8 => "sc8"@,
        }
    }

    /// The tag that the driver knows this format by.
    pub fn as_str(&self) -> (tag: &'static str)
        ensures
            tag@ == self.spec_str(),
    {
        match self {
            CpuFormat::ComplexFloat64 => "fc64",
            CpuFormat::ComplexFloat32 => "fc32",
            CpuFormat::ComplexInt16 => "sc16",
            CpuFormat::ComplexInt8 => "sc8",
        }
    }
}

impl OtwFormat {
    /// The tag that the driver knows this format by.
    pub open spec fn spec_str(self) -> Seq<char> {
        match self {
            OtwFormat::ComplexInt16 => "sc16"@,
            OtwFormat::ComplexInt12 => "sc12"@,
            OtwFormat::ComplexInt8 => "sc8"@,
            OtwFormat::Int16 => "s16"@,
            OtwFormat::Int8 => "s8"@,
        }
    }

    /// The tag that the driver knows this format by.
    pub fn as_str(&self) -> (tag: &'static str)
        ensures
            tag@ == self.spec_str(),
            is_clean_text(tag@),
    {
        proof {
            reveal_strlit("sc16");
            reveal_strlit("sc12");
            reveal_strlit("sc8");
            reveal_strlit("s16");
            reveal_strlit("s8");
        }
        match self {
            OtwFormat::ComplexInt16 => "sc16",
            OtwFormat::ComplexInt12 => "sc12",
            OtwFormat::ComplexInt8 => "sc8",
            OtwFormat::Int16 => "s16",
            OtwFormat::Int8 => "s8",
        }
    }
}

impl UnderflowPolicy {
    /// The value that the driver knows this policy by.
    pub open spec fn spec_str(self) -> Seq<char> {
        match self {
            UnderflowPolicy::NextBurst => "next_burst"@,
            UnderflowPolicy::NextPacket => "next_packet"@,
        }
    }

    /// The value that the driver knows this policy by.
    pub fn as_str(&self) -> (tag: &'static str)
        ensures
            tag@ == self.spec_str(),
            is_clean_text(tag@),
    {
        proof {
            reveal_strlit("next_burst");
            reveal_strlit("next_packet");
        }
        match self {
            UnderflowPolicy::NextBurst => "next_burst",
            UnderflowPolicy::NextPacket => "next_packet",
        }
    }
}

/// Text that can stand on either side of `=` in an argument: it holds no
/// `=` and no NUL character.
pub open spec fn is_clean_text(text: Seq<char>) -> bool {
    !text.contains('=') && !text.contains('\0')
}

/// The contents of a list of pairs of strings.
pub open spec fn pairs_view(pairs: Seq<(String, String)>) -> Seq<(Seq<char>, Seq<char>)> {
    Seq::new(pairs.len(), |i: int| (pairs[i].0@, pairs[i].1@))
}

/// What a [`StreamArgs`] holds.
pub struct StreamArgsView {
    /// The format on the transport, if one was chosen.
    pub otw_format: Option<OtwFormat>,
    /// The keyword arguments, in the order in which their keys were first
    /// given.
    pub args: Seq<(Seq<char>, Seq<char>)>,
    /// The channels of the stream, if they were chosen.
    pub channels: Option<Seq<usize>>,
}

impl StreamArgsView {
    /// Whether a keyword argument with this key was given.
    pub open spec fn has_key(self, key: Seq<char>) -> bool {
        exists|i: int| 0 <= i < self.args.len() && (#[trigger] self.args[i]).0 == key
    }

    /// The position of the keyword argument with this key.
    pub open spec fn key_index(self, key: Seq<char>) -> int {
        choose|i: int| 0 <= i < self.args.len() && (#[trigger] self.args[i]).0 == key
    }

    /// The arguments after `key` was given the value `value`: the value of
    /// an argument that was given before is replaced, a new argument comes
    /// last.
    pub open spec fn with_arg(self, key: Seq<char>, value: Seq<char>) -> StreamArgsView {
        StreamArgsView {
            args: if self.has_key(key) {
                self.args.update(self.key_index(key), (key, value))
            } else {
                self.args.push((key, value))
            },
            ..self
        }
    }

    /// No key was given twice.
    pub open spec fn keys_distinct(self) -> bool {
        forall|i: int, j: int|
            0 <= i < self.args.len() && 0 <= j < self.args.len() && i != j ==> (
            #[trigger] self.args[i]).0 != (#[trigger] self.args[j]).0
    }

    /// No key and no value holds `=` or a NUL character.
    pub open spec fn clean(self) -> bool {
        forall|i: int|
            0 <= i < self.args.len() ==> is_clean_text((#[trigger] self.args[i]).0)
                && is_clean_text(self.args[i].1)
    }

    /// The keyword arguments, each written as `key=value`.
    pub open spec fn items(self) -> Seq<Seq<char>> {
        Seq::new(self.args.len(), |i: int| key_value(self.args[i].0, self.args[i].1))
    }

    /// The keyword arguments as the driver takes them: joined by commas.
    pub open spec fn args_text(self) -> Seq<char> {
        join(self.items(), ","@)
    }

    /// The tag of the transport format, empty if none was chosen.
    pub open spec fn otw_text(self) -> Seq<char> {
        match self.otw_format {
            Some(format) => format.spec_str(),
            None => Seq::empty(),
        }
    }

    /// The channel list, empty if none was chosen.
    pub open spec fn channel_list(self) -> Seq<usize> {
        match self.channels {
            Some(channels) => channels,
            None => Seq::empty(),
        }
    }
}

/// Arguments for opening a stream of samples of type `T`.
pub struct StreamArgs<T: Sample> {
    otw_format: Option<OtwFormat>,
    args: Vec<(String, String)>,
    channels: Option<Vec<usize>>,
    phantom: PhantomData<T>,
}

/// The arguments of a stream as plain text and numbers, ready to be handed
/// to the driver. No text in it holds a NUL character.
pub struct StreamRequest {
    /// The tag of the sample format in memory.
    pub cpu_format: String,
    /// The tag of the sample format on the transport, or the empty string.
    pub otw_format: String,
    /// The keyword arguments, `key=value` joined by commas.
    pub args: String,
    /// The channels of the stream.
    pub channels: Vec<usize>,
}

impl<T: Sample> View for StreamArgs<T> {
    type V = StreamArgsView;

    closed spec fn view(&self) -> StreamArgsView {
        StreamArgsView {
            otw_format: self.otw_format,
            args: pairs_view(self.args@),
            channels: match self.channels {
                Some(channels) => Some(channels@),
                None => None,
            },
        }
    }
}

/// Whether `text` can stand on either side of `=` in a keyword argument.
pub fn is_valid_kwarg(text: &str) -> (valid: bool)
    ensures
        valid == is_clean_text(text@),
{
    !contains_char(text, '=') && !contains_char(text, '\0')
}

impl<T: Sample> StreamArgs<T> {
    /// The arguments are in order: no key twice, and no `=` or NUL
    /// character in a key or a value.
    pub open spec fn wf(&self) -> bool {
        self@.keys_distinct() && self@.clean()
    }

    /// Arguments that choose nothing: the driver picks the transport format
    /// and the channels.
    pub fn new() -> (args: Self)
        ensures
            args.wf(),
            args@ == (StreamArgsView { otw_format: None, args: Seq::empty(), channels: None }),
    {
        let args = StreamArgs {
            otw_format: None,
            args: Vec::new(),
            channels: None,
            phantom: PhantomData,
        };
        assert(args@.args =~= Seq::empty());
        args
    }

    /// Chooses the format on the transport.
    pub fn otw_format(self, format: OtwFormat) -> (args: Self)
        ensures
            args@ == (StreamArgsView { otw_format: Some(format), ..self@ }),
            self.wf() ==> args.wf(),
    {
        let mut args = self;
        args.otw_format = Some(format);
        args
    }

    /// Sets the keyword argument `underflow_policy`.
    pub fn underflow_policy(self, policy: UnderflowPolicy) -> (args: Self)
        requires
            self.wf(),
        ensures
            args.wf(),
            args@ == self@.with_arg("underflow_policy"@, policy.spec_str()),
    {
        proof {
            reveal_strlit("underflow_policy");
        }
        let mut args = self;
        args.insert("underflow_policy", policy.as_str().to_owned());
        args
    }

    /// Sets the keyword argument `spp`, the number of samples per packet.
    pub fn spp(self, samples_per_packet: usize) -> (args: Self)
        requires
            self.wf(),
        ensures
            args.wf(),
            args@ == self@.with_arg("spp"@, decimal(samples_per_packet as nat)),
    {
        proof {
            reveal_strlit("spp");
            lemma_decimal_chars(samples_per_packet as nat, '=');
            lemma_decimal_chars(samples_per_packet as nat, '\0');
        }
        let mut args = self;
        args.insert("spp", format_decimal(samples_per_packet));
        args
    }

    /// Chooses the channels of the stream.
    pub fn channels(self, channels: &[usize]) -> (args: Self)
        ensures
            args@ == (StreamArgsView { channels: Some(channels@), ..self@ }),
            self.wf() ==> args.wf(),
    {
        let mut args = self;
        args.channels = Some(slice_to_vec(channels));
        args
    }

    /// Sets a keyword argument. An argument that was given before under the
    /// same key gets the new value.
    ///
    /// Neither `arg` nor `value` may hold `=` or a NUL character.
    pub fn with_kwarg(self, arg: &str, value: &str) -> (args: Self)
        requires
            self.wf(),
            is_clean_text(arg@),
            is_clean_text(value@),
        ensures
            args.wf(),
            args@ == self@.with_arg(arg@, value@),
    {
        let mut args = self;
        args.insert(arg, value.to_owned());
        args
    }

    /// Sets a keyword argument, if its text can stand in an argument.
    ///
    /// Returns `None` if `arg` or `value` holds `=` or a NUL character. See
    /// [`StreamArgs::with_kwarg`].
    pub fn try_with_kwarg(self, arg: &str, value: &str) -> (res: Option<Self>)
        requires
            self.wf(),
        ensures
            res is Some <==> is_clean_text(arg@) && is_clean_text(value@),
            res is Some ==> res->Some_0.wf() && res->Some_0@ == self@.with_arg(arg@, value@),
    {
        if is_valid_kwarg(arg) && is_valid_kwarg(value) {
            Some(self.with_kwarg(arg, value))
        } else {
            None
        }
    }

    fn insert(&mut self, key: &str, value: String)
        requires
            old(self).wf(),
            is_clean_text(key@),
            is_clean_text(value@),
        ensures
            final(self).wf(),
            final(self)@ == old(self)@.with_arg(key@, value@),
    {
        let key_owned = key.to_owned();
        let ghost before = self@;
        let mut i: usize = 0;
        while i < self.args.len()
            invariant
                i <= self.args.len(),
                *self == *old(self),
                before == self@,
                before.keys_distinct(),
                before.clean(),
                is_clean_text(key@),
                is_clean_text(value@),
                key_owned@ == key@,
                forall|j: int| 0 <= j < i ==> (#[trigger] before.args[j]).0 != key@,
            decreases self.args.len() - i,
        {
            if self.args[i].0 == key_owned {
                assert(before.args[i as int].0 == key@);
                assert(before.has_key(key@));
                let ghost found = before.key_index(key@);
                assert(before.args[found].0 == key@);
                assert(found == i);
                self.args[i] = (key_owned, value);
                assert(self@.args =~= before.args.update(i as int, (key@, value@)));
                assert(self@.keys_distinct()) by {
                    assert forall|a: int, b: int|
                        0 <= a < self@.args.len() && 0 <= b < self@.args.len() && a != b implies (
                    #[trigger] self@.args[a]).0 != (#[trigger] self@.args[b]).0 by {
                        assert(self@.args[a].0 == before.args[a].0);
                        assert(self@.args[b].0 == before.args[b].0);
                    }
                }
                assert(self@.clean()) by {
                    assert forall|a: int| 0 <= a < self@.args.len() implies is_clean_text(
                        (#[trigger] self@.args[a]).0,
                    ) && is_clean_text(self@.args[a].1) by {
                        if a != i {
                            assert(self@.args[a] == before.args[a]);
                        }
                    }
                }
                return ;
            }
            i += 1;
        }
        assert(!before.has_key(key@));
        self.args.push((key_owned, value));
        assert(self@.args =~= before.args.push((key@, value@)));
        assert(self@.keys_distinct()) by {
            assert forall|a: int, b: int|
                0 <= a < self@.args.len() && 0 <= b < self@.args.len() && a != b implies (
            #[trigger] self@.args[a]).0 != (#[trigger] self@.args[b]).0 by {
                if a < before.args.len() {
                    assert(self@.args[a] == before.args[a]);
                }
                if b < before.args.len() {
                    assert(self@.args[b] == before.args[b]);
                }
            }
        }
        assert(self@.clean()) by {
            assert forall|a: int| 0 <= a < self@.args.len() implies is_clean_text(
                (#[trigger] self@.args[a]).0,
            ) && is_clean_text(self@.args[a].1) by {
                if a < before.args.len() {
                    assert(self@.args[a] == before.args[a]);
                }
            }
        }
    }

    /// The keyword arguments as the driver takes them: each written as
    /// `key=value`, joined by commas.
    pub fn args_string(&self) -> (text: String)
        ensures
            text@ == self@.args_text(),
    {
        let mut items: Vec<String> = Vec::with_capacity(self.args.len());
        let mut i: usize = 0;
        while i < self.args.len()
            invariant
                i <= self.args.len(),
                items.len() == i,
                forall|j: int|
                    0 <= j < i ==> (#[trigger] items[j])@ == key_value(
                        self.args[j].0@,
                        self.args[j].1@,
                    ),
            decreases self.args.len() - i,
        {
            items.push(format_key_value(self.args[i].0.as_str(), self.args[i].1.as_str()));
            i += 1;
        }
        assert(strings_view(items@) =~= self@.items());
        join_strings(&items, ",")
    }

    /// Turns the arguments into the plain values that the driver takes.
    ///
    /// The tag of the memory format is that of the sample type `T`.
    pub fn into_request(self) -> (request: StreamRequest)
        requires
            self.wf(),
        ensures
            request.cpu_format@ == T::spec_name(),
            request.otw_format@ == self@.otw_text(),
            request.args@ == self@.args_text(),
            request.channels@ == self@.channel_list(),
            !request.cpu_format@.contains('\0'),
            !request.otw_format@.contains('\0'),
            !request.args@.contains('\0'),
    {
        let cpu_format = T::name().to_owned();
        let otw_format = match self.otw_format {
            Some(format) => format.as_str().to_owned(),
            None => String::new(),
        };
        let args = self.args_string();
        proof {
            let items = self@.items();
            reveal_strlit(",");
            reveal_strlit("=");
            assert forall|i: int| 0 <= i < items.len() implies !(#[trigger] items[i]).contains(
                '\0',
            ) by {
                assert(is_clean_text(self@.args[i].0));
                lemma_concat_chars(self@.args[i].0, seq!['='], '\0');
                lemma_concat_chars(self@.args[i].0 + seq!['='], self@.args[i].1, '\0');
            }
            lemma_join_chars(items, ","@, '\0');
        }
        let channels = match self.channels {
            Some(channels) => channels,
            None => Vec::new(),
        };
        StreamRequest { cpu_format, otw_format, args, channels }
    }
}

} // verus!
