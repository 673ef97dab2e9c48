use vstd::prelude::*;
use vstd::utf8::{decode_utf8, encode_utf8, valid_utf8};
use crate::c_string::{has_null, string_from_bytes};
use crate::error::{check_status, kind_of_status, Error, ErrorKind, UHD_ERROR_NONE};

verus! {

/// Number of bytes in the first buffer offered when copying a string out.
pub const INITIAL_SIZE: usize = 128;

/// Number of bytes in the largest buffer offered when copying a string out.
pub const MAX_SIZE: usize = 1048576;

/// The buffer sizes that are still to come when the next one is `next`:
/// `next`, then twice that, and so on while the size is at most `MAX_SIZE`.
pub open spec fn sizes_from(next: nat) -> Seq<usize>
    decreases 2 * MAX_SIZE - next,
{
    if 0 < next <= MAX_SIZE {
        seq![next as usize] + sizes_from(2 * next)
    } else {
        Seq::empty()
    }
}

/// All the buffer sizes, in the order in which they are tried.
pub open spec fn all_sizes() -> Seq<usize> {
    sizes_from(INITIAL_SIZE as nat)
}

/// The buffer sizes are 128 and its doubles up to 1048576, fourteen in all,
/// and none after them.
pub proof fn lemma_all_sizes()
    ensures
        all_sizes() =~= seq![
            128usize,
            256usize,
            512usize,
            1024usize,
            2048usize,
            4096usize,
            8192usize,
            16384usize,
            32768usize,
            65536usize,
            131072usize,
            262144usize,
            524288usize,
            1048576usize,
        ],
{
    reveal_with_fuel(sizes_from, 16);
}

/// Yields `INITIAL_SIZE`, then double the previous value, up to `MAX_SIZE`.
#[derive(Debug)]
pub struct BufferSizes {
    next: usize,
}

impl View for BufferSizes {
    type V = Seq<usize>;

    /// The sizes that have not been handed out yet, in order.
    closed spec fn view(&self) -> Seq<usize> {
        sizes_from(self.next as nat)
    }
}

impl BufferSizes {
    #[verifier::type_invariant]
    closed spec fn wf(self) -> bool {
        INITIAL_SIZE <= self.next <= 2 * MAX_SIZE
    }

    /// Starts before the first size.
    pub fn new() -> (sizes: Self)
        ensures
            sizes@ == all_sizes(),
    {
        BufferSizes { next: INITIAL_SIZE }
    }

    /// Hands out the next size, or `None` once `MAX_SIZE` has been passed.
    pub fn next(&mut self) -> (size: Option<usize>)
        ensures
            old(self)@.len() == 0 ==> size is None && final(self)@ == old(self)@,
            old(self)@.len() > 0 ==> size == Some(old(self)@[0]) && final(self)@ == old(
                self,
            )@.skip(1),
            size is Some ==> INITIAL_SIZE <= size->0 <= MAX_SIZE,
    {
        proof {
            use_type_invariant(&*self);
        }
        if self.next > MAX_SIZE {
            None
        } else {
            let current: usize = self.next;
            self.next = current * 2;
            Some(current)
        }
    }
}

/// True when `index` is the place of the first null byte.
pub open spec fn is_first_null(bytes: Seq<u8>, index: int) -> bool {
    &&& 0 <= index < bytes.len()
    &&& bytes[index] == 0u8
    &&& forall|j: int| 0 <= j < index ==> bytes[j] != 0u8
}

/// The bytes in front of the first null byte.
pub open spec fn text_bytes(bytes: Seq<u8>) -> Seq<u8>
    recommends
        has_null(bytes),
{
    bytes.take(choose|index: int| is_first_null(bytes, index))
}

/// Finds the first null byte.
pub fn find_null(bytes: &[u8]) -> (found: Option<usize>)
    ensures
        found is Some <==> has_null(bytes@),
        found is Some ==> is_first_null(bytes@, found->0 as int),
{
    let mut i: usize = 0;
    while i < bytes.len()
        invariant
            0 <= i <= bytes@.len(),
            forall|j: int| 0 <= j < i ==> bytes@[j] != 0u8,
        decreases bytes@.len() - i,
    {
        if bytes[i] == 0 {
            return Some(i);
        }
        i += 1;
    }
    None
}

/// What one attempt to copy a string out comes to, given the status that the
/// native call returned and the buffer as it left it. A failing status is
/// that error. A buffer with a null byte is complete: the bytes in front of
/// the first null byte are the string, or `Utf8` where they are not valid
/// UTF-8. A buffer without a null byte was too small, and nothing is decided.
pub open spec fn attempt_outcome(status: u32, bytes: Seq<u8>) -> Option<
    Result<Seq<char>, ErrorKind>,
> {
    if status != UHD_ERROR_NONE {
        Some(Err(kind_of_status(status)))
    } else if has_null(bytes) {
        if valid_utf8(text_bytes(bytes)) {
            Some(Ok(decode_utf8(text_bytes(bytes))))
        } else {
            Some(Err(ErrorKind::Utf8))
        }
    } else {
        None
    }
}

/// A result by the characters of its string or the kind of its error.
pub open spec fn result_view(result: Result<String, Error>) -> Result<Seq<char>, ErrorKind> {
    match result {
        Ok(text) => Ok(text@),
        Err(error) => Err(error.spec_kind()),
    }
}

/// How one attempt to copy a string out ended.
#[derive(Debug)]
pub enum CopyStep {
    /// The copy is over, with this result.
    Complete(Result<String, Error>),
    /// The buffer, handed back unchanged, was too small.
    Grow(Vec<u8>),
}

impl CopyStep {
    /// This step as an outcome: the result where the copy is over.
    pub open spec fn outcome(self) -> Option<Result<Seq<char>, ErrorKind>> {
        match self {
            CopyStep::Complete(result) => Some(result_view(result)),
            CopyStep::Grow(_) => None,
        }
    }
}

/// Decides what one attempt to copy a string out comes to, from the status
/// that the native call returned and the buffer as it left it.
pub fn finish_attempt(status: u32, buffer: Vec<u8>) -> (step: CopyStep)
    ensures
        step.outcome() == attempt_outcome(status, buffer@),
        step matches CopyStep::Grow(same) ==> same@ == buffer@,
        step matches CopyStep::Complete(Err(error)) ==> error.spec_text() is None,
        step matches CopyStep::Complete(Ok(text)) ==> encode_utf8(text@) == text_bytes(buffer@)
            && !has_null(encode_utf8(text@)),
{
    match check_status(status) {
        Err(error) => {
            return CopyStep::Complete(Err(error));
        },
        Ok(()) => {},
    }
    let mut buffer = buffer;
    // Get the part of the buffer before the first null
    match find_null(buffer.as_slice()) {
        Some(null_index) => {
            buffer.truncate(null_index);
            proof {
                if valid_utf8(buffer@) {
                    vstd::utf8::decode_utf8_encode_utf8(buffer@);
                }
            }
            // Try to convert to UTF-8
            CopyStep::Complete(string_from_bytes(buffer))
        },
        None => {
            // If there is no null, the string was longer than the buffer.
            CopyStep::Grow(buffer)
        },
    }
}

/// The buffer offered to an attempt: what the attempt before it left,
/// cut or filled up with null bytes to the size of this attempt.
pub open spec fn resized(left: Seq<u8>, size: int) -> Seq<u8> {
    Seq::new(
        size as nat,
        |i: int|
            if i < left.len() {
                left[i]
            } else {
                0u8
            },
    )
}

/// One call of the native function while copying a string out.
pub struct CopyCall {
    /// The buffer that was offered.
    pub offered: Vec<u8>,
    /// The status that came back.
    pub status: u32,
    /// The buffer as it came back.
    pub returned: Vec<u8>,
}

/// True when call `k` of `calls` is a call of `operation` that offers a
/// buffer of the `k`th size: what the call before it returned, cut or filled
/// up with null bytes (the first buffer holds null bytes only).
pub open spec fn call_made<F: Fn(Vec<u8>) -> (u32, Vec<u8>)>(
    operation: F,
    calls: Seq<CopyCall>,
    k: int,
) -> bool {
    &&& call_ensures(operation, (calls[k].offered,), (calls[k].status, calls[k].returned))
    &&& calls[k].offered@ == resized(
        if k == 0 {
            Seq::empty()
        } else {
            calls[k - 1].returned@
        },
        all_sizes()[k] as int,
    )
}

/// True when call `k` of `calls` left nothing decided.
pub open spec fn undecided(calls: Seq<CopyCall>, k: int) -> bool {
    attempt_outcome(calls[k].status, calls[k].returned@) is None
}

/// True when `calls` can be the calls that copying a string out makes of
/// `operation`, in order: one for each size in turn; every call but the last
/// left nothing decided; and the last one decided, unless it offered the
/// largest size.
pub open spec fn copy_calls<F: Fn(Vec<u8>) -> (u32, Vec<u8>)>(
    operation: F,
    calls: Seq<CopyCall>,
) -> bool {
    &&& 0 < calls.len() <= all_sizes().len()
    &&& forall|k: int| 0 <= k < calls.len() ==> #[trigger] call_made(operation, calls, k)
    &&& forall|k: int| 0 <= k < calls.len() - 1 ==> #[trigger] undecided(calls, k)
    &&& calls.len() < all_sizes().len() ==> !undecided(calls, calls.len() - 1)
}

/// What copying a string out gives after these calls: what the last call
/// decided, or `StringLength` where even the largest buffer was too small.
pub open spec fn copy_result(calls: Seq<CopyCall>) -> Result<Seq<char>, ErrorKind> {
    match attempt_outcome(calls.last().status, calls.last().returned@) {
        Some(result) => result,
        None => Err(ErrorKind::StringLength),
    }
}

/// A helper for copying a string from a C API
///
/// `operation` takes a buffer, calls a C function that fills it and returns
/// the status of that call with the buffer. It is offered buffers of growing
/// size, starting at `INITIAL_SIZE` and doubling up to `MAX_SIZE`, until it
/// fails or leaves a null byte in the buffer.
///
/// This function returns errors in the following cases:
/// * `operation` returned a status that indicates an error
/// * The string to be copied is longer than the maximum allowed length
/// * The string copied is not valid UTF-8
pub fn copy_string<F>(operation: F) -> (result: Result<String, Error>) where
    F: Fn(Vec<u8>) -> (u32, Vec<u8>),

    requires
        forall|buffer: Vec<u8>|
            INITIAL_SIZE <= buffer@.len() <= MAX_SIZE ==> call_requires(operation, (buffer,)),
    ensures
        exists|calls: Seq<CopyCall>|
            copy_calls(operation, calls) && result_view(result) == copy_result(calls),
        result is Ok ==> valid_utf8(encode_utf8(result->Ok_0@)) && !has_null(
            encode_utf8(result->Ok_0@),
        ),
        result is Err ==> result->Err_0.spec_text() is None,
{
    broadcast use vstd::utf8::encode_utf8_valid_utf8;

    let mut sizes = BufferSizes::new();
    let mut buffer: Vec<u8> = Vec::new();
    let ghost mut calls: Seq<CopyCall> = Seq::empty();
    loop
        invariant
            forall|buffer: Vec<u8>|
                INITIAL_SIZE <= buffer@.len() <= MAX_SIZE ==> call_requires(operation, (buffer,)),
            calls.len() <= all_sizes().len(),
            sizes@ == all_sizes().skip(calls.len() as int),
            forall|k: int| 0 <= k < calls.len() ==> #[trigger] call_made(operation, calls, k),
            forall|k: int| 0 <= k < calls.len() ==> #[trigger] undecided(calls, k),
            buffer@ == (if calls.len() == 0 {
                Seq::empty()
            } else {
                calls.last().returned@
            }),
        decreases sizes@.len(),
    {
        let size = match sizes.next() {
            Some(size) => size,
            None => {
                proof {
                    lemma_all_sizes();
                    assert(undecided(calls, calls.len() - 1));
                    assert(copy_result(calls) == Err::<Seq<char>, ErrorKind>(
                        ErrorKind::StringLength,
                    ));
                }
                // String is too large to fully copy
                return Err(Error::StringLength(None));
            },
        };
        let ghost left = buffer@;
        buffer.resize(size, 0u8);
        proof {
            assert(buffer@ =~= resized(left, size as int));
        }
        let ghost offered = buffer;
        // Call into the C code to copy the string
        let (status, returned) = operation(buffer);
        let ghost before = calls;
        proof {
            calls = calls.push(CopyCall { offered, status, returned });
            assert forall|k: int| 0 <= k < calls.len() implies #[trigger] call_made(
                operation,
                calls,
                k,
            ) by {
                if k < before.len() {
                    assert(call_made(operation, before, k));
                }
            }
            assert forall|k: int| 0 <= k < calls.len() - 1 implies #[trigger] undecided(
                calls,
                k,
            ) by {
                assert(undecided(before, k));
            }
        }
        match finish_attempt(status, returned) {
            CopyStep::Complete(result) => {
                proof {
                    assert(copy_calls(operation, calls));
                    assert(result_view(result) == copy_result(calls));
                }
                return result;
            },
            CopyStep::Grow(same) => {
                // Try again with the next size.
                buffer = same;
                proof {
                    assert(undecided(calls, calls.len() - 1));
                }
            },
        }
    }
}

/// Where the native function succeeds every time and never leaves a null
/// byte, every size is tried and the copy ends with `StringLength`.
pub proof fn lemma_copy_exhausts<F: Fn(Vec<u8>) -> (u32, Vec<u8>)>(
    operation: F,
    calls: Seq<CopyCall>,
)
    requires
        copy_calls(operation, calls),
        forall|k: int|
            0 <= k < calls.len() ==> (#[trigger] calls[k]).status == UHD_ERROR_NONE && !has_null(
                calls[k].returned@,
            ),
    ensures
        calls.len() == all_sizes().len(),
        copy_result(calls) == Err::<Seq<char>, ErrorKind>(ErrorKind::StringLength),
{
}

/// A call that returns a failing status is the last one, whatever size it
/// was offered, and the copy ends with the error that the status stands for.
pub proof fn lemma_copy_stops_at_failure<F: Fn(Vec<u8>) -> (u32, Vec<u8>)>(
    operation: F,
    calls: Seq<CopyCall>,
    k: int,
)
    requires
        copy_calls(operation, calls),
        0 <= k < calls.len(),
        calls[k].status != UHD_ERROR_NONE,
    ensures
        k == calls.len() - 1,
        copy_result(calls) == Err::<Seq<char>, ErrorKind>(kind_of_status(calls[k].status)),
{
    if k < calls.len() - 1 {
        assert(undecided(calls, k));
    }
}

/// True when all the buffers have the same length.
pub open spec fn equal_lengths<I>(buffers: Seq<&[I]>) -> bool {
    forall|i: int, j: int|
        0 <= i < buffers.len() && 0 <= j < buffers.len() ==> (#[trigger] buffers[i])@.len() == (
        #[trigger] buffers[j])@.len()
}

/// The length that the buffers share: that of the first, or 0 where there
/// is no buffer.
pub open spec fn shared_length<I>(buffers: Seq<&[I]>) -> nat {
    if buffers.len() == 0 {
        0
    } else {
        buffers[0]@.len()
    }
}

/// Returns the length that all the buffers have, if they have the same
/// length, and 0 if there are no buffers.
pub fn equal_buffer_length<I>(buffers: &[&[I]]) -> (length: Option<usize>)
    ensures
        length is Some <==> equal_lengths(buffers@),
        length is Some ==> length->0 == shared_length(buffers@),
{
    if buffers.len() == 0 {
        return Some(0);
    }
    let first: usize = buffers[0].len();
    let mut i: usize = 1;
    while i < buffers.len()
        invariant
            1 <= i <= buffers@.len(),
            first == buffers@[0]@.len(),
            forall|j: int| 0 <= j < i ==> (#[trigger] buffers@[j])@.len() == first,
        decreases buffers@.len() - i,
    {
        if buffers[i].len() != first {
            return None;
        }
        i += 1;
    }
    Some(first)
}

/// Checks that all provided buffers have the same length. Returns the length of the buffers,
/// or 0 if there are no buffers.
///
/// The buffers must all have the same length.
pub fn check_equal_buffer_lengths<I>(buffers: &[&[I]]) -> (length: usize)
    requires
        equal_lengths(buffers@),
    ensures
        length == shared_length(buffers@),
{
    match equal_buffer_length(buffers) {
        Some(length) => length,
        None => 0,
    }
}

/// Moves the items of a vector into a boxed array, as the conversion of the
/// standard library from `Vec<T>` to `Box<[T; N]>` does: it succeeds where
/// the vector holds exactly `LEN` items, and the array then holds the same
/// items in the same order.
#[verifier::external_body]
fn into_boxed_array<T, const LEN: usize>(items: Vec<T>) -> (array: Option<Box<[T; LEN]>>)
    ensures
        array is Some <==> items@.len() == LEN,
        array is Some ==> array->0@ == items@,
{
    match Box::<[T; LEN]>::try_from(items) {
        Ok(array) => Some(array),
        Err(_) => None,
    }
}

/// Creates a boxed array whose items are all clones of the default value
/// of their type.
pub fn alloc_boxed_slice<T: Default + Clone, const LEN: usize>() -> (array: Box<[T; LEN]>)
    ensures
        array@.len() == LEN,
        exists|value: T|
            call_ensures(T::default, (), value) && forall|i: int|
                0 <= i < LEN ==> cloned(value, #[trigger] array@[i]),
{
    let value = T::default();
    let items = vec![value; LEN];
    match into_boxed_array(items) {
        Some(array) => array,
        None => vstd::pervasive::unreached(),
    }
}

} // verus!
