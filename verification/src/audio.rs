//! Audio device bookkeeping: the device menu's entries and the choice of the
//! capture device for a configured device name and source.

use crate::text::{contains_str, lowercase_of, occurs_in, str_eq, to_lowercase};
use vstd::prelude::*;
use vstd::string::*;

verus! {

/// A device as listed in the device menu.
pub struct AudioDevice {
    pub name: String,
    /// `true` for an output device (captured in loopback), `false` for an input.
    pub is_output: bool,
}

/// The entry of a device: its name and whether it is an output.
pub open spec fn device_view(d: AudioDevice) -> (Seq<char>, bool) {
    (d.name@, d.is_output)
}

/// The input names that do not already appear among the output names, in order.
pub open spec fn new_inputs(inputs: Seq<Seq<char>>, outputs: Seq<Seq<char>>) -> Seq<Seq<char>>
    decreases inputs.len(),
{
    if inputs.len() == 0 {
        Seq::empty()
    } else {
        let rest = new_inputs(inputs.drop_last(), outputs);
        if outputs.contains(inputs.last()) {
            rest
        } else {
            rest.push(inputs.last())
        }
    }
}

/// The device menu for the given output and input names: every output, then
/// every input whose name is not also an output's.
pub open spec fn device_menu(outputs: Seq<Seq<char>>, inputs: Seq<Seq<char>>) -> Seq<(Seq<char>, bool)> {
    outputs.map_values(|n: Seq<char>| (n, true)) + new_inputs(inputs, outputs).map_values(|n: Seq<char>| (n, false))
}

/// The characters of each string of a list.
pub open spec fn names_view(v: Seq<String>) -> Seq<Seq<char>> {
    v.map_values(|s: String| s@)
}

fn contains_name(list: &Vec<String>, name: &str) -> (r: bool)
    ensures
        r == names_view(list@).contains(name@),
{
    let mut i: usize = 0;
    while i < list.len()
        invariant
            i <= list@.len(),
            forall|j: int| 0 <= j < i ==> list@[j]@ != name@,
        decreases list.len() - i,
    {
        if str_eq(list[i].as_str(), name) {
            assert(names_view(list@)[i as int] == name@);
            return true;
        }
        i = i + 1;
    }
    assert forall|j: int| 0 <= j < names_view(list@).len() implies names_view(list@)[j] != name@ by {
        assert(names_view(list@)[j] == list@[j]@);
    }
    false
}

/// The device menu entries for the output devices named `outputs` and the input
/// devices named `inputs`: all outputs first, then the inputs whose name is not
/// also an output's.
pub fn merge_device_lists(outputs: Vec<String>, inputs: Vec<String>) -> (devices: Vec<AudioDevice>)
    ensures
        devices@.map_values(|d: AudioDevice| device_view(d)) == device_menu(names_view(outputs@), names_view(inputs@)),
{
    let ghost outs = names_view(outputs@);
    let ghost ins = names_view(inputs@);
    let mut devices: Vec<AudioDevice> = Vec::new();
    let mut i: usize = 0;
    while i < outputs.len()
        invariant
            i <= outputs@.len(),
            outs == names_view(outputs@),
            devices@.map_values(|d: AudioDevice| device_view(d)) == outs.take(i as int).map_values(|n: Seq<char>| (n, true)),
        decreases outputs.len() - i,
    {
        let ghost before = devices@;
        proof {
            assert(outs[i as int] == outputs@[i as int]@);
        }
        devices.push(AudioDevice { name: outputs[i].clone(), is_output: true });
        proof {
            assert(devices@.map_values(|d: AudioDevice| device_view(d)) =~= before.map_values(|d: AudioDevice| device_view(d)).push((outs[i as int], true)));
            assert(outs.take(i + 1) =~= outs.take(i as int).push(outs[i as int]));
        }
        i = i + 1;
        assert(devices@.map_values(|d: AudioDevice| device_view(d)) =~= outs.take(i as int).map_values(|n: Seq<char>| (n, true)));
    }
    assert(outs.take(outputs@.len() as int) =~= outs);
    let ghost head = devices@.map_values(|d: AudioDevice| device_view(d));
    let mut k: usize = 0;
    while k < inputs.len()
        invariant
            k <= inputs@.len(),
            outs == names_view(outputs@),
            ins == names_view(inputs@),
            head == outs.map_values(|n: Seq<char>| (n, true)),
            devices@.map_values(|d: AudioDevice| device_view(d)) == head + new_inputs(ins.take(k as int), outs).map_values(
                |n: Seq<char>| (n, false),
            ),
        decreases inputs.len() - k,
    {
        let name = &inputs[k];
        let listed = contains_name(&outputs, name.as_str());
        proof {
            assert(ins.take(k + 1).drop_last() =~= ins.take(k as int));
            assert(ins.take(k + 1).last() == name@);
        }
        let ghost before = devices@;
        proof {
            assert(ins[k as int] == inputs@[k as int]@);
        }
        if !listed {
            devices.push(AudioDevice { name: name.clone(), is_output: false });
            assert(devices@.map_values(|d: AudioDevice| device_view(d)) =~= before.map_values(|d: AudioDevice| device_view(d)).push((ins[k as int], false)));
        }
        k = k + 1;
        assert(devices@.map_values(|d: AudioDevice| device_view(d)) =~= head + new_inputs(ins.take(k as int), outs).map_values(
            |n: Seq<char>| (n, false),
        ));
    }
    assert(ins.take(inputs@.len() as int) =~= ins);
    devices
}

/// The device audio is captured from.
#[derive(Clone, Copy, Debug, PartialEq, Eq, Structural)]
pub enum DeviceChoice {
    /// The output device at this index of the output list.
    Output(usize),
    /// The input device at this index of the input list.
    Input(usize),
    /// The system's default output device.
    DefaultOutput,
    /// The system's default input device.
    DefaultInput,
}

/// The source captures what the computer plays.
pub open spec fn is_loopback(source: Seq<char>) -> bool {
    source == "loopback"@
}

/// Capture opens an output device: loopback on a platform that captures
/// loopback from output devices.
pub open spec fn captures_output(source: Seq<char>, output_for_loopback: bool) -> bool {
    is_loopback(source) && output_for_loopback
}

/// An input whose lower-cased name mentions `monitor` or `loopback`: a virtual
/// input that mirrors an output.
pub open spec fn monitor_like(name: Seq<char>) -> bool {
    occurs_in(lowercase_of(name), "monitor"@) || occurs_in(lowercase_of(name), "loopback"@)
}

/// The device at `i` has a readable, monitor-like name.
pub open spec fn monitor_at(list: Seq<Option<String>>, i: int) -> bool {
    list[i] matches Some(n) && monitor_like(n@)
}

/// The device at `i` is named `name`; a device whose name cannot be read
/// counts as named with the empty string.
pub open spec fn named_at(list: Seq<Option<String>>, i: int, name: Seq<char>) -> bool {
    match list[i] {
        Some(n) => n@ == name,
        None => name.len() == 0,
    }
}

/// `r` is the first index below `n` where `p` holds.
pub open spec fn first_where(n: int, p: spec_fn(int) -> bool, r: int) -> bool {
    &&& 0 <= r < n
    &&& p(r)
    &&& forall|j: int| 0 <= j < r ==> !#[trigger] p(j)
}

/// `p` holds at no index below `n`.
pub open spec fn none_where(n: int, p: spec_fn(int) -> bool) -> bool {
    forall|j: int| 0 <= j < n ==> !#[trigger] p(j)
}

/// `c` is the capture device for `device_name` and `source`, given the readable
/// names of the output and input devices: `default` takes the default output
/// for loopback-from-output, else (in loopback) the first monitor-like input,
/// else the default input; any other name takes the first device of that name
/// in the searched list, else that list's default.
pub open spec fn device_choice_ok(
    device_name: Seq<char>,
    source: Seq<char>,
    output_for_loopback: bool,
    outputs: Seq<Option<String>>,
    inputs: Seq<Option<String>>,
    c: DeviceChoice,
) -> bool {
    let out = captures_output(source, output_for_loopback);
    if device_name == "default"@ {
        if out {
            c == DeviceChoice::DefaultOutput
        } else if is_loopback(source) && !none_where(inputs.len() as int, |i: int| monitor_at(inputs, i)) {
            c matches DeviceChoice::Input(i) && first_where(inputs.len() as int, |j: int| monitor_at(inputs, j), i as int)
        } else {
            c == DeviceChoice::DefaultInput
        }
    } else if out {
        if none_where(outputs.len() as int, |i: int| named_at(outputs, i, device_name)) {
            c == DeviceChoice::DefaultOutput
        } else {
            c matches DeviceChoice::Output(i) && first_where(outputs.len() as int, |j: int| named_at(outputs, j, device_name), i as int)
        }
    } else {
        if none_where(inputs.len() as int, |i: int| named_at(inputs, i, device_name)) {
            c == DeviceChoice::DefaultInput
        } else {
            c matches DeviceChoice::Input(i) && first_where(inputs.len() as int, |j: int| named_at(inputs, j, device_name), i as int)
        }
    }
}

/// Whether a device name looks like a monitor of an output.
pub fn is_monitor_name(name: &str) -> (r: bool)
    ensures
        r == monitor_like(name@),
{
    let lower = to_lowercase(name);
    contains_str(lower.as_str(), "monitor") || contains_str(lower.as_str(), "loopback")
}

fn find_monitor(list: &Vec<Option<String>>) -> (r: Option<usize>)
    ensures
        r matches Some(i) ==> first_where(list@.len() as int, |j: int| monitor_at(list@, j), i as int),
        r is None ==> none_where(list@.len() as int, |j: int| monitor_at(list@, j)),
{
    let mut i: usize = 0;
    while i < list.len()
        invariant
            i <= list@.len(),
            forall|j: int| 0 <= j < i ==> !monitor_at(list@, j),
        decreases list.len() - i,
    {
        let hit = match &list[i] {
            Some(n) => is_monitor_name(n.as_str()),
            None => false,
        };
        if hit {
            return Some(i);
        }
        i = i + 1;
    }
    None
}

fn find_named(list: &Vec<Option<String>>, name: &str) -> (r: Option<usize>)
    ensures
        r matches Some(i) ==> first_where(list@.len() as int, |j: int| named_at(list@, j, name@), i as int),
        r is None ==> none_where(list@.len() as int, |j: int| named_at(list@, j, name@)),
{
    let empty = name.unicode_len() == 0;
    let mut i: usize = 0;
    while i < list.len()
        invariant
            i <= list@.len(),
            empty == (name@.len() == 0),
            forall|j: int| 0 <= j < i ==> !named_at(list@, j, name@),
        decreases list.len() - i,
    {
        let hit = match &list[i] {
            Some(n) => str_eq(n.as_str(), name),
            None => empty,
        };
        if hit {
            return Some(i);
        }
        i = i + 1;
    }
    None
}

/// The capture device for `device_name` and `source` (see `device_choice_ok`).
/// `outputs` and `inputs` hold the names of the output and input devices, `None`
/// where a name could not be read; `output_for_loopback` tells whether this
/// platform captures loopback from output devices.
pub fn choose_capture_device(
    device_name: &str,
    source: &str,
    output_for_loopback: bool,
    outputs: &Vec<Option<String>>,
    inputs: &Vec<Option<String>>,
) -> (c: DeviceChoice)
    ensures
        device_choice_ok(device_name@, source@, output_for_loopback, outputs@, inputs@, c),
        forall|i: int|
            #![trigger inputs@[i]]
            0 <= i < inputs@.len() && device_name@ != "default"@ && device_name@.len() > 0
                && !(is_loopback(source@) && output_for_loopback)
                && (inputs@[i] matches Some(n) && n@ == device_name@)
                && (forall|j: int| 0 <= j < i ==> !(#[trigger] inputs@[j] matches Some(n) && n@ == device_name@))
                ==> (c matches DeviceChoice::Input(k) && k == i),
{
    let c = choose_device_inner(device_name, source, output_for_loopback, outputs, inputs);
    proof {
        assert forall|i: int|
            #![trigger inputs@[i]]
            0 <= i < inputs@.len() && device_name@ != "default"@ && device_name@.len() > 0
                && !(is_loopback(source@) && output_for_loopback)
                && (inputs@[i] matches Some(n) && n@ == device_name@)
                && (forall|j: int| 0 <= j < i ==> !(#[trigger] inputs@[j] matches Some(n) && n@ == device_name@))
            implies (c matches DeviceChoice::Input(k) && k == i) by {
            lemma_named_input_chosen(device_name@, source@, output_for_loopback, outputs@, inputs@, c, i);
        }
    }
    c
}

fn choose_device_inner(
    device_name: &str,
    source: &str,
    output_for_loopback: bool,
    outputs: &Vec<Option<String>>,
    inputs: &Vec<Option<String>>,
) -> (c: DeviceChoice)
    ensures
        device_choice_ok(device_name@, source@, output_for_loopback, outputs@, inputs@, c),
{
    let loopback = str_eq(source, "loopback");
    let out = loopback && output_for_loopback;
    if str_eq(device_name, "default") {
        if out {
            DeviceChoice::DefaultOutput
        } else if loopback {
            match find_monitor(inputs) {
                Some(i) => DeviceChoice::Input(i),
                None => DeviceChoice::DefaultInput,
            }
        } else {
            DeviceChoice::DefaultInput
        }
    } else if out {
        match find_named(outputs, device_name) {
            Some(i) => DeviceChoice::Output(i),
            None => DeviceChoice::DefaultOutput,
        }
    } else {
        match find_named(inputs, device_name) {
            Some(i) => DeviceChoice::Input(i),
            None => DeviceChoice::DefaultInput,
        }
    }
}

/// A device name other than `default`, with no output capture, picks the first
/// input of that name whenever one exists, whatever the source and whatever
/// monitor-like inputs there are.
pub proof fn lemma_named_input_chosen(
    device_name: Seq<char>,
    source: Seq<char>,
    output_for_loopback: bool,
    outputs: Seq<Option<String>>,
    inputs: Seq<Option<String>>,
    c: DeviceChoice,
    i: int,
)
    requires
        device_choice_ok(device_name, source, output_for_loopback, outputs, inputs, c),
        device_name != "default"@,
        device_name.len() > 0,
        !(is_loopback(source) && output_for_loopback),
        0 <= i < inputs.len(),
        inputs[i] matches Some(n) && n@ == device_name,
        forall|j: int| 0 <= j < i ==> !(#[trigger] inputs[j] matches Some(n) && n@ == device_name),
    ensures
        c matches DeviceChoice::Input(k) && k == i,
{
    let p = |j: int| named_at(inputs, j, device_name);
    assert(p(i));
    assert(!none_where(inputs.len() as int, p));
    assert(c matches DeviceChoice::Input(k) && first_where(inputs.len() as int, p, k as int));
    if let DeviceChoice::Input(k) = c {
        assert(p(k as int));
        if (k as int) < i {
            assert(inputs[k as int] matches Some(n) && n@ == device_name);
        }
    }
}

} // verus!
