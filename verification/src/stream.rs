use core::marker::PhantomData;
use vstd::prelude::*;
use vstd::utf8::encode_utf8;
use crate::c_string::{has_null, CString};
use crate::double::Double;
use crate::error::{Error, ErrorKind};
use crate::time_spec::{fits_native_time, TimeSpec};

verus! {

/// The complex number of `num_complex`, which is what a sample is. The
/// binding never looks inside one.
#[verifier::external_type_specification]
#[verifier::external_body]
#[verifier::reject_recursive_types(T)]
pub struct ExComplex<T>(num_complex::Complex<T>);

/// A stream item
pub trait Item {
    /// The format name (examples: `fc32` for complex single precision,
    /// `sc16` for complex signed 16-bit)
    const FORMAT: &'static str;
}

impl Item for num_complex::Complex64 {
    const FORMAT: &'static str = "fc64";
}

impl Item for num_complex::Complex32 {
    const FORMAT: &'static str = "fc32";
}

impl Item for num_complex::Complex<i16> {
    const FORMAT: &'static str = "sc16";
}

impl Item for num_complex::Complex<i8> {
    const FORMAT: &'static str = "sc8";
}

/// The format names of the four kinds of complex sample: `fc64` for double
/// precision, `fc32` for single precision, `sc16` for signed 16-bit and `sc8`
/// for signed 8-bit.
pub proof fn lemma_formats()
    ensures
        <num_complex::Complex64 as Item>::FORMAT@ == "fc64"@,
        <num_complex::Complex32 as Item>::FORMAT@ == "fc32"@,
        <num_complex::Complex<i16> as Item>::FORMAT@ == "sc16"@,
        <num_complex::Complex<i8> as Item>::FORMAT@ == "sc8"@,
{
}

/// None of these four format names holds a null byte, so for these item
/// types the host format never keeps stream arguments from the form that C
/// takes.
pub proof fn lemma_formats_have_no_null()
    ensures
        !has_null(encode_utf8(<num_complex::Complex64 as Item>::FORMAT@)),
        !has_null(encode_utf8(<num_complex::Complex32 as Item>::FORMAT@)),
        !has_null(encode_utf8(<num_complex::Complex<i16> as Item>::FORMAT@)),
        !has_null(encode_utf8(<num_complex::Complex<i8> as Item>::FORMAT@)),
{
    reveal_strlit("fc64");
    reveal_strlit("fc32");
    reveal_strlit("sc16");
    reveal_strlit("sc8");
    vstd::utf8::is_ascii_chars_encode_utf8("fc64"@);
    vstd::utf8::is_ascii_chars_encode_utf8("fc32"@);
    vstd::utf8::is_ascii_chars_encode_utf8("sc16"@);
    vstd::utf8::is_ascii_chars_encode_utf8("sc8"@);
}

/// Arguments used to create a stream
///
/// The type parameter I defines the item type and host format.
#[derive(Debug)]
pub struct StreamArgs<I> {
    host_format: PhantomData<I>,
    wire_format: String,
    args: String,
    channels: Vec<usize>,
}

/// What stream arguments hold, apart from the host format, which the item
/// type fixes.
pub struct StreamArgsView {
    pub wire_format: Seq<char>,
    pub args: Seq<char>,
    /// The channels to stream, in order. None stands for channel 0 alone.
    pub channels: Seq<usize>,
}

impl<I> View for StreamArgs<I> {
    type V = StreamArgsView;

    closed spec fn view(&self) -> StreamArgsView {
        StreamArgsView {
            wire_format: self.wire_format@,
            args: self.args@,
            channels: self.channels@,
        }
    }
}

impl<I> StreamArgs<I> {
    /// Creates stream arguments with the provided wire format, no additional
    /// arguments, and channel 0
    pub fn new(wire_format: &str) -> (args: Self)
        ensures
            args@.wire_format == wire_format@,
            args@.args == Seq::<char>::empty(),
            args@.channels == Seq::<usize>::empty(),
    {
        StreamArgs {
            host_format: PhantomData,
            wire_format: wire_format.to_owned(),
            args: String::new(),
            channels: Vec::new(),
        }
    }

    /// Creates a builder, initialized with default arguments, that can be used to configure
    /// the stream arguments
    pub fn builder() -> (builder: StreamArgsBuilder<I>)
        ensures
            builder@.wire_format == "sc16"@,
            builder@.args == Seq::<char>::empty(),
            builder@.channels == Seq::<usize>::empty(),
    {
        StreamArgsBuilder { args: StreamArgs::default() }
    }
}

impl<I> Clone for StreamArgs<I> {
    fn clone(&self) -> (copy: Self)
        ensures
            copy@ == self@,
    {
        StreamArgs {
            host_format: PhantomData,
            wire_format: self.wire_format.clone(),
            args: self.args.clone(),
            channels: self.channels.clone(),
        }
    }
}

impl<I> Default for StreamArgs<I> {
    /// Creates stream arguments with wire format `sc16`, host format determined by the type `I`,
    /// and default arguments and channels
    fn default() -> (args: Self)
        ensures
            args@.wire_format == "sc16"@,
            args@.args == Seq::<char>::empty(),
            args@.channels == Seq::<usize>::empty(),
    {
        StreamArgs::new("sc16")
    }
}

/// Configures stream arguments one field at a time.
#[derive(Debug)]
pub struct StreamArgsBuilder<I> {
    args: StreamArgs<I>,
}

impl<I> View for StreamArgsBuilder<I> {
    type V = StreamArgsView;

    /// The arguments that `build` would give.
    closed spec fn view(&self) -> StreamArgsView {
        self.args@
    }
}

impl<I> StreamArgsBuilder<I> {
    /// Sets the wire data format
    pub fn wire_format(self, wire_format: String) -> (builder: Self)
        ensures
            builder@.wire_format == wire_format@,
            builder@.args == self@.args,
            builder@.channels == self@.channels,
    {
        StreamArgsBuilder {
            args: StreamArgs {
                host_format: PhantomData,
                wire_format,
                args: self.args.args,
                channels: self.args.channels,
            },
        }
    }

    /// Sets additional arguments for the stream
    pub fn args(self, args: String) -> (builder: Self)
        ensures
            builder@.wire_format == self@.wire_format,
            builder@.args == args@,
            builder@.channels == self@.channels,
    {
        StreamArgsBuilder {
            args: StreamArgs {
                host_format: PhantomData,
                wire_format: self.args.wire_format,
                args,
                channels: self.args.channels,
            },
        }
    }

    /// Sets the indexes of channels to stream
    pub fn channels(self, channels: Vec<usize>) -> (builder: Self)
        ensures
            builder@.wire_format == self@.wire_format,
            builder@.args == self@.args,
            builder@.channels == channels@,
    {
        StreamArgsBuilder {
            args: StreamArgs {
                host_format: PhantomData,
                wire_format: self.args.wire_format,
                args: self.args.args,
                channels,
            },
        }
    }

    /// Builds a StreamArgs with the configured options
    pub fn build(self) -> (args: StreamArgs<I>)
        ensures
            args@ == self@,
    {
        self.args
    }
}

/// C-compatible version of StreamArgs
#[derive(Debug)]
pub struct StreamArgsC<'args> {
    pub host_format: CString,
    pub wire_format: CString,
    pub args: CString,
    pub channels: &'args [usize],
}

impl<'args> StreamArgsC<'args> {
    /// Puts stream arguments into the form that C takes. The host format is
    /// the format name of the item type. A null byte in the host format, the
    /// wire format or the additional arguments gives `NullByte`.
    pub fn try_from_args<I: Item>(args: &'args StreamArgs<I>) -> (result: Result<Self, Error>)
        ensures
            result is Ok <==> !has_null(encode_utf8(I::FORMAT@)) && !has_null(
                encode_utf8(args@.wire_format),
            ) && !has_null(encode_utf8(args@.args)),
            result is Ok ==> {
                &&& result->Ok_0.host_format@ == encode_utf8(I::FORMAT@)
                &&& result->Ok_0.wire_format@ == encode_utf8(args@.wire_format)
                &&& result->Ok_0.args@ == encode_utf8(args@.args)
                &&& result->Ok_0.channels@ == args@.channels
            },
            result is Err ==> result->Err_0.spec_kind() == ErrorKind::NullByte,
            result is Err ==> result->Err_0.spec_text() is None,
    {
        let host_format = CString::new(I::FORMAT)?;
        let wire_format = CString::new(args.wire_format.as_str())?;
        let extra = CString::new(args.args.as_str())?;
        Ok(StreamArgsC { host_format, wire_format, args: extra, channels: args.channels.as_slice() })
    }

    /// Returns the number of channels as the native library counts them, in
    /// a C `int`, or nothing where there are more channels than that holds.
    pub fn n_channels(&self) -> (count: Option<i32>)
        ensures
            count is Some <==> self.channels@.len() <= i32::MAX,
            count is Some ==> count->0 == self.channels@.len(),
    {
        let length: usize = self.channels.len();
        if length <= i32::MAX as usize {
            Some(length as i32)
        } else {
            None
        }
    }
}

/// The bits of 0.1, the timeout in seconds of the single-channel calls
/// `receive_simple` and `transmit_simple`.
pub const SIMPLE_TIMEOUT_BITS: u64 = 0x3FB9_9999_9999_999A;

/// Whether `receive_simple` stops at the end of one packet: it does not.
pub const SIMPLE_ONE_PACKET: bool = false;

/// The timeout of the single-channel calls `receive_simple` and
/// `transmit_simple`: 0.1 seconds.
pub fn simple_timeout() -> (timeout: Double)
    ensures
        timeout.bits == SIMPLE_TIMEOUT_BITS,
{
    Double::from_bits(SIMPLE_TIMEOUT_BITS)
}

/// Native stream mode: stream until told to stop.
pub const UHD_STREAM_MODE_START_CONTINUOUS: u32 = 97;

/// Native stream mode: stop a continuous stream.
pub const UHD_STREAM_MODE_STOP_CONTINUOUS: u32 = 111;

/// Native stream mode: stream a number of samples and end.
pub const UHD_STREAM_MODE_NUM_SAMPS_AND_DONE: u32 = 100;

/// Native stream mode: stream a number of samples and expect another command.
pub const UHD_STREAM_MODE_NUM_SAMPS_AND_MORE: u32 = 109;

/// A stream command that can be sent to a USRP to control streaming
#[derive(Debug, Clone, Copy, PartialEq, Eq, Structural)]
pub struct StreamCommand {
    pub time: StreamTime,
    pub command_type: StreamCommandType,
}

#[derive(Debug, Clone, Copy, PartialEq, Eq, Structural)]
pub enum StreamCommandType {
    StartContinuous,
    StopContinuous,
    CountAndDone(u64),
    CountAndMore(u64),
}

/// When the USRP should begin streaming
#[derive(Debug, Clone, Copy, PartialEq, Eq, Structural)]
pub enum StreamTime {
    Now,
    Later(TimeSpec),
}

/// A stream command as the native library takes it.
#[derive(Debug, Clone, Copy)]
pub struct StreamCommandC {
    pub stream_mode: u32,
    pub num_samps: usize,
    pub stream_now: bool,
    pub time_spec_full_secs: libc::time_t,
    pub time_spec_frac_secs: Double,
}

impl StreamCommandType {
    /// The native stream mode of this kind of command.
    pub open spec fn mode(self) -> u32 {
        match self {
            StreamCommandType::StartContinuous => UHD_STREAM_MODE_START_CONTINUOUS,
            StreamCommandType::StopContinuous => UHD_STREAM_MODE_STOP_CONTINUOUS,
            StreamCommandType::CountAndDone(_) => UHD_STREAM_MODE_NUM_SAMPS_AND_DONE,
            StreamCommandType::CountAndMore(_) => UHD_STREAM_MODE_NUM_SAMPS_AND_MORE,
        }
    }

    /// The number of samples that this kind of command asks for; none for a
    /// continuous stream.
    pub open spec fn samples(self) -> u64 {
        match self {
            StreamCommandType::StartContinuous => 0,
            StreamCommandType::StopContinuous => 0,
            StreamCommandType::CountAndDone(samples) => samples,
            StreamCommandType::CountAndMore(samples) => samples,
        }
    }
}

impl StreamCommand {
    /// True when the native form can hold this command: the seconds of a
    /// later time fit the native time type, and the number of samples fits
    /// the native count.
    pub open spec fn encodable(self) -> bool {
        &&& self.time matches StreamTime::Later(time) ==> fits_native_time(time.seconds)
        &&& self.command_type.samples() <= usize::MAX
    }

    /// The native form of this command. A command for now leaves the time at
    /// zero; a continuous one leaves the number of samples at zero.
    pub open spec fn c_command(self) -> StreamCommandC {
        StreamCommandC {
            stream_mode: self.command_type.mode(),
            num_samps: self.command_type.samples() as usize,
            stream_now: self.time is Now,
            time_spec_full_secs: match self.time {
                StreamTime::Now => 0,
                StreamTime::Later(time) => time.seconds as libc::time_t,
            },
            time_spec_frac_secs: match self.time {
                StreamTime::Now => (Double { bits: 0 }),
                StreamTime::Later(time) => time.fraction,
            },
        }
    }

    /// Tells whether the native form can hold this command.
    pub fn is_encodable(&self) -> (encodable: bool)
        ensures
            encodable == self.encodable(),
    {
        let time_fits = match &self.time {
            StreamTime::Now => true,
            StreamTime::Later(time) => time.is_native(),
        };
        let samples_fit = match self.command_type {
            StreamCommandType::StartContinuous => true,
            StreamCommandType::StopContinuous => true,
            StreamCommandType::CountAndDone(samples) => samples <= usize::MAX as u64,
            StreamCommandType::CountAndMore(samples) => samples <= usize::MAX as u64,
        };
        time_fits && samples_fit
    }

    /// Converts this command into the native form.
    ///
    /// The command must be one that the native form can hold.
    pub fn as_c_command(&self) -> (command: StreamCommandC)
        requires
            self.encodable(),
        ensures
            command == self.c_command(),
    {
        let mut c_cmd = StreamCommandC {
            stream_mode: UHD_STREAM_MODE_START_CONTINUOUS,
            num_samps: 0,
            stream_now: false,
            time_spec_full_secs: 0,
            time_spec_frac_secs: Double::zero(),
        };

        match &self.time {
            StreamTime::Now => {
                c_cmd.stream_now = true;
            },
            StreamTime::Later(timespec) => {
                let native = timespec.to_native();
                c_cmd.time_spec_full_secs = native.full_secs;
                c_cmd.time_spec_frac_secs = native.frac_secs;
            },
        }

        match self.command_type {
            StreamCommandType::StartContinuous => {
                c_cmd.stream_mode = UHD_STREAM_MODE_START_CONTINUOUS;
            },
            StreamCommandType::StopContinuous => {
                c_cmd.stream_mode = UHD_STREAM_MODE_STOP_CONTINUOUS;
            },
            StreamCommandType::CountAndDone(samples) => {
                c_cmd.stream_mode = UHD_STREAM_MODE_NUM_SAMPS_AND_DONE;
                c_cmd.num_samps = samples as usize;
            },
            StreamCommandType::CountAndMore(samples) => {
                c_cmd.stream_mode = UHD_STREAM_MODE_NUM_SAMPS_AND_MORE;
                c_cmd.num_samps = samples as usize;
            },
        };
        c_cmd
    }
}

impl StreamCommandC {
    /// The command that the fields of this native form spell, if the stream
    /// mode is one of the four that exist.
    pub open spec fn command(self) -> Option<StreamCommand> {
        let time = if self.stream_now {
            StreamTime::Now
        } else {
            StreamTime::Later(
                TimeSpec {
                    seconds: self.time_spec_full_secs as i64,
                    fraction: self.time_spec_frac_secs,
                },
            )
        };
        if self.stream_mode == UHD_STREAM_MODE_START_CONTINUOUS {
            Some(StreamCommand { time, command_type: StreamCommandType::StartContinuous })
        } else if self.stream_mode == UHD_STREAM_MODE_STOP_CONTINUOUS {
            Some(StreamCommand { time, command_type: StreamCommandType::StopContinuous })
        } else if self.stream_mode == UHD_STREAM_MODE_NUM_SAMPS_AND_DONE {
            Some(
                StreamCommand {
                    time,
                    command_type: StreamCommandType::CountAndDone(self.num_samps as u64),
                },
            )
        } else if self.stream_mode == UHD_STREAM_MODE_NUM_SAMPS_AND_MORE {
            Some(
                StreamCommand {
                    time,
                    command_type: StreamCommandType::CountAndMore(self.num_samps as u64),
                },
            )
        } else {
            None
        }
    }
}

/// A command that the native form can hold is read back from that form
/// unchanged: the same kind of command with the same number of samples, at
/// the same time.
pub proof fn lemma_stream_command_round_trip(command: StreamCommand)
    requires
        command.encodable(),
    ensures
        command.c_command().command() == Some(command),
{
}

} // verus!
