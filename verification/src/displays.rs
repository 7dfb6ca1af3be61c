//! The walk over adapters and their outputs that finds the displays.

use vstd::prelude::*;
use crate::display::{Display, OutputDesc};

verus! {

broadcast use Display::lemma_spec_new;

/// What probing one output index of an adapter gave.
#[derive(Clone, Copy, Debug)]
pub enum OutputProbe {
    /// The adapter has no output at that index.
    Missing,
    /// There is an output, but it cannot be duplicated.
    Unusable,
    /// There is an output that can be duplicated, described so.
    Usable(OutputDesc),
}

/// What the walk wants probed next.
#[derive(Clone, Copy, Debug, PartialEq, Eq, Structural)]
pub enum Request {
    /// Whether there is an adapter at `index`.
    Adapter { index: u32 },
    /// The output at `index` of the adapter at `adapter`.
    Output { adapter: u32, index: u32 },
    /// Nothing: the walk is over.
    Finished,
}

/// A walk over the adapters by rising index, and over each adapter's outputs
/// by rising index. The first output of an adapter that is missing or cannot
/// be duplicated ends that adapter; the first index without an adapter ends
/// the walk.
pub struct Displays {
    request: Request,
}

/// What is asked after adapter `adapter` is done with.
pub open spec fn after_adapter(adapter: u32) -> Request {
    if adapter < u32::MAX {
        Request::Adapter { index: (adapter + 1) as u32 }
    } else {
        Request::Finished
    }
}

/// What is asked after an answer on whether there is an adapter.
pub open spec fn after_adapter_probe(request: Request, present: bool) -> Request {
    match request {
        Request::Adapter { index } => if present {
            Request::Output { adapter: index, index: 0 }
        } else {
            Request::Finished
        },
        _ => request,
    }
}

/// What is asked after an answer on an output.
pub open spec fn after_output_probe(request: Request, probe: OutputProbe) -> Request {
    match request {
        Request::Output { adapter, index } => match probe {
            OutputProbe::Usable(_) => if index < u32::MAX {
                Request::Output { adapter, index: (index + 1) as u32 }
            } else {
                after_adapter(adapter)
            },
            _ => after_adapter(adapter),
        },
        _ => request,
    }
}

/// The display that an answer on an output yields.
pub open spec fn yielded(request: Request, probe: OutputProbe) -> Option<Display> {
    match (request, probe) {
        (Request::Output { adapter, index }, OutputProbe::Usable(desc)) => Some(
            Display::spec_new(adapter, index, desc),
        ),
        _ => None,
    }
}

impl Displays {
    /// What the walk wants probed next.
    pub closed spec fn spec_request(&self) -> Request {
        self.request
    }

    /// A walk at its start: it asks for the adapter at index 0.
    pub fn new() -> (walk: Displays)
        ensures
            walk.spec_request() == (Request::Adapter { index: 0 }),
    {
        Displays { request: Request::Adapter { index: 0 } }
    }

    /// What the walk wants probed next.
    pub fn request(&self) -> (request: Request)
        ensures
            request == self.spec_request(),
    {
        self.request
    }

    /// Tells the walk whether there is an adapter at the index it asked for.
    /// With one, it goes on to the adapter's first output; without, it is
    /// over. A walk that did not ask for an adapter stays as it is.
    pub fn adapter_found(&mut self, present: bool)
        ensures
            final(self).spec_request() == after_adapter_probe(old(self).spec_request(), present),
    {
        match self.request {
            Request::Adapter { index } => {
                if present {
                    self.request = Request::Output { adapter: index, index: 0 };
                } else {
                    self.request = Request::Finished;
                }
            },
            _ => {},
        }
    }

    /// Tells the walk what probing the output it asked for gave. An output
    /// that can be duplicated is yielded as a display, and the walk goes on
    /// to the next output of the adapter. Any other answer ends the
    /// adapter, and the walk goes on to the next adapter. A walk that did
    /// not ask for an output stays as it is and yields nothing.
    pub fn output_probed(&mut self, probe: OutputProbe) -> (display: Option<Display>)
        ensures
            final(self).spec_request() == after_output_probe(old(self).spec_request(), probe),
            display == yielded(old(self).spec_request(), probe),
            display is Some <==> old(self).spec_request() is Output && probe is Usable,
            display is Some ==> {
                &&& display->Some_0.spec_adapter() == old(self).spec_request()->Output_adapter
                &&& display->Some_0.spec_output() == old(self).spec_request()->Output_index
                &&& display->Some_0.spec_desc() == probe->Usable_0
            },
    {
        match self.request {
            Request::Output { adapter, index } => {
                let onward = if adapter < u32::MAX {
                    Request::Adapter { index: adapter + 1 }
                } else {
                    Request::Finished
                };
                match probe {
                    OutputProbe::Usable(desc) => {
                        if index < u32::MAX {
                            self.request = Request::Output { adapter, index: index + 1 };
                        } else {
                            self.request = onward;
                        }
                        Some(Display::new(adapter, index, desc))
                    },
                    _ => {
                        self.request = onward;
                        None
                    },
                }
            },
            _ => None,
        }
    }
}

/// How far a walk has come: the adapter it is at, whether it is past asking
/// for that adapter, and the output it is at. A walk that is over has come
/// farther than any that is not.
pub open spec fn progress(request: Request) -> (int, int, int) {
    match request {
        Request::Adapter { index } => (index as int, 0, 0),
        Request::Output { adapter, index } => (adapter as int, 1, index as int),
        Request::Finished => (u32::MAX + 1, 0, 0),
    }
}

/// `later` has come farther than `earlier`.
pub open spec fn farther(earlier: (int, int, int), later: (int, int, int)) -> bool {
    ||| earlier.0 < later.0
    ||| earlier.0 == later.0 && earlier.1 < later.1
    ||| earlier.0 == later.0 && earlier.1 == later.1 && earlier.2 < later.2
}

/// A walk never turns back: every answer to what it asked brings it
/// farther, by rising adapter index and, within an adapter, by rising
/// output index. As there are no more than 2^32 adapters with 2^32 outputs
/// each to ask for, every walk ends. A walk that is over stays over.
pub proof fn lemma_walk_advances(request: Request, present: bool, probe: OutputProbe)
    ensures
        request is Adapter ==> farther(
            progress(request),
            progress(after_adapter_probe(request, present)),
        ),
        request is Output ==> farther(
            progress(request),
            progress(after_output_probe(request, probe)),
        ),
        request is Finished ==> after_adapter_probe(request, present) == request
            && after_output_probe(request, probe) == request && yielded(request, probe) is None,
{
}

/// What probing output `index` of adapter `adapter` gives on a platform
/// whose adapters have the outputs listed in `platform`.
pub open spec fn probe_of(
    platform: Seq<Vec<OutputProbe>>,
    adapter: int,
    index: int,
) -> OutputProbe {
    if 0 <= adapter < platform.len() && 0 <= index < platform[adapter]@.len() {
        platform[adapter]@[index]
    } else {
        OutputProbe::Missing
    }
}

/// The displays of adapter `adapter` from output `index` on: those of the
/// outputs up to the first that is missing or cannot be duplicated.
pub open spec fn adapter_displays(platform: Seq<Vec<OutputProbe>>, adapter: int, index: int) -> Seq<
    Display,
>
    decreases platform[adapter]@.len() - index,
{
    if 0 <= adapter < platform.len() && 0 <= index < platform[adapter]@.len() {
        match platform[adapter]@[index] {
            OutputProbe::Usable(desc) => seq![
                Display::spec_new(adapter as u32, index as u32, desc),
            ] + adapter_displays(platform, adapter, index + 1),
            _ => Seq::empty(),
        }
    } else {
        Seq::empty()
    }
}

/// The displays of the adapters from `adapter` on, adapter by adapter.
pub open spec fn displays_from(platform: Seq<Vec<OutputProbe>>, adapter: int) -> Seq<Display>
    decreases platform.len() - adapter,
{
    if 0 <= adapter < platform.len() {
        adapter_displays(platform, adapter, 0) + displays_from(platform, adapter + 1)
    } else {
        Seq::empty()
    }
}

/// The displays that a walk over `platform` finds, in the order in which it
/// finds them.
pub open spec fn enumeration(platform: Seq<Vec<OutputProbe>>) -> Seq<Display> {
    displays_from(platform, 0)
}

/// No index on the platform is too large for the walk to ask for.
pub open spec fn walkable(platform: Seq<Vec<OutputProbe>>) -> bool {
    &&& platform.len() <= u32::MAX
    &&& forall|a: int| 0 <= a < platform.len() ==> (#[trigger] platform[a])@.len() <= u32::MAX
}

/// What a walk that asks `request` will still find on `platform`.
pub open spec fn remaining(platform: Seq<Vec<OutputProbe>>, request: Request) -> Seq<Display> {
    match request {
        Request::Adapter { index } => displays_from(platform, index as int),
        Request::Output { adapter, index } => adapter_displays(
            platform,
            adapter as int,
            index as int,
        ) + displays_from(platform, adapter + 1),
        Request::Finished => Seq::empty(),
    }
}

/// How far a walk that asks `request` is from its end on `platform`: the
/// probes it can still make.
pub open spec fn probes_left(platform: Seq<Vec<OutputProbe>>, request: Request) -> (int, int, int) {
    match request {
        Request::Adapter { index } => (platform.len() - index + 1, 1, 0),
        Request::Output { adapter, index } => (
            platform.len() - adapter + 1,
            0,
            platform[adapter as int]@.len() - index + 1,
        ),
        Request::Finished => (0, 0, 0),
    }
}

/// Walks over a platform given as a list: element `a` lists what probing
/// each output index of adapter `a` gives, and every index beyond the lists
/// is missing. Returns the displays in the order found.
pub fn enumerate(platform: &Vec<Vec<OutputProbe>>) -> (found: Vec<Display>)
    requires
        walkable(platform@),
    ensures
        found@ == enumeration(platform@),
{
    let mut walk = Displays::new();
    let mut found: Vec<Display> = Vec::new();
    loop
        invariant
            walkable(platform@),
            found@ + remaining(platform@, walk.spec_request()) == enumeration(platform@),
            match walk.spec_request() {
                Request::Adapter { index } => index <= platform@.len(),
                Request::Output { adapter, index } => adapter < platform@.len() && index
                    <= platform@[adapter as int]@.len(),
                Request::Finished => true,
            },
        ensures
            found@ == enumeration(platform@),
        decreases
            probes_left(platform@, walk.spec_request()).0,
            probes_left(platform@, walk.spec_request()).1,
            probes_left(platform@, walk.spec_request()).2,
    {
        match walk.request() {
            Request::Finished => {
                assert(found@ + Seq::<Display>::empty() =~= found@);
                break ;
            },
            Request::Adapter { index } => {
                let present = (index as usize) < platform.len();
                proof {
                    if !present {
                        assert(displays_from(platform@, index as int) =~= Seq::<Display>::empty());
                    } else {
                        assert(displays_from(platform@, index as int) =~= adapter_displays(
                            platform@,
                            index as int,
                            0,
                        ) + displays_from(platform@, index + 1));
                    }
                }
                walk.adapter_found(present);
            },
            Request::Output { adapter, index } => {
                let outputs = &platform[adapter as usize];
                let probe = if (index as usize) < outputs.len() {
                    outputs[index as usize]
                } else {
                    OutputProbe::Missing
                };
                let ghost before = found@;
                let ghost rest = displays_from(platform@, adapter + 1);
                let ghost here = adapter_displays(platform@, adapter as int, index as int);
                proof {
                    assert(platform@[adapter as int] == outputs);
                    if adapter + 1 >= platform@.len() {
                        assert(rest =~= Seq::<Display>::empty());
                    }
                }
                match walk.output_probed(probe) {
                    Some(display) => {
                        found.push(display);
                        proof {
                            let tail = adapter_displays(platform@, adapter as int, index + 1);
                            assert(here =~= seq![display] + tail);
                            assert(found@ =~= before + seq![display]);
                            assert((before + seq![display]) + (tail + rest) =~= before + (here
                                + rest));
                            if index == u32::MAX {
                                assert(tail =~= Seq::<Display>::empty());
                            }
                        }
                    },
                    None => {
                        proof {
                            assert(here =~= Seq::<Display>::empty());
                            assert(before + rest =~= before + (here + rest));
                        }
                    },
                }
            },
        }
    }
    found
}

/// How many outputs from `index` on can be duplicated, up to the first that
/// is missing or cannot.
pub open spec fn leading_usable(outputs: Seq<OutputProbe>, index: int) -> nat
    decreases outputs.len() - index,
{
    if 0 <= index < outputs.len() && outputs[index] is Usable {
        1 + leading_usable(outputs, index + 1)
    } else {
        0
    }
}

/// How many outputs from `index` on can be duplicated.
pub open spec fn usable(outputs: Seq<OutputProbe>, index: int) -> nat
    decreases outputs.len() - index,
{
    if 0 <= index < outputs.len() {
        (if outputs[index] is Usable {
            1nat
        } else {
            0nat
        }) + usable(outputs, index + 1)
    } else {
        0
    }
}

/// The sum of `leading_usable` over the adapters from `adapter` on.
pub open spec fn leading_total(platform: Seq<Vec<OutputProbe>>, adapter: int) -> nat
    decreases platform.len() - adapter,
{
    if 0 <= adapter < platform.len() {
        leading_usable(platform[adapter]@, 0) + leading_total(platform, adapter + 1)
    } else {
        0
    }
}

/// The sum of `usable` over the adapters from `adapter` on.
pub open spec fn usable_total(platform: Seq<Vec<OutputProbe>>, adapter: int) -> nat
    decreases platform.len() - adapter,
{
    if 0 <= adapter < platform.len() {
        usable(platform[adapter]@, 0) + usable_total(platform, adapter + 1)
    } else {
        0
    }
}

/// No output that can be duplicated comes after one that is missing or
/// cannot.
pub open spec fn unbroken(outputs: Seq<OutputProbe>) -> bool {
    forall|i: int, j: int|
        0 <= i < j < outputs.len() && (#[trigger] outputs[j]) is Usable ==> (
        #[trigger] outputs[i]) is Usable
}

proof fn lemma_adapter_displays_len(platform: Seq<Vec<OutputProbe>>, adapter: int, index: int)
    requires
        0 <= adapter < platform.len(),
    ensures
        adapter_displays(platform, adapter, index).len() == leading_usable(
            platform[adapter]@,
            index,
        ),
    decreases platform[adapter]@.len() - index,
{
    if 0 <= index < platform[adapter]@.len() && platform[adapter]@[index] is Usable {
        lemma_adapter_displays_len(platform, adapter, index + 1);
    }
}

proof fn lemma_displays_from_len(platform: Seq<Vec<OutputProbe>>, adapter: int)
    ensures
        displays_from(platform, adapter).len() == leading_total(platform, adapter),
    decreases platform.len() - adapter,
{
    if 0 <= adapter < platform.len() {
        lemma_adapter_displays_len(platform, adapter, 0);
        lemma_displays_from_len(platform, adapter + 1);
    }
}

proof fn lemma_none_usable(outputs: Seq<OutputProbe>, index: int)
    requires
        forall|j: int| index <= j < outputs.len() ==> !((#[trigger] outputs[j]) is Usable),
    ensures
        usable(outputs, index) == 0,
    decreases outputs.len() - index,
{
    if 0 <= index < outputs.len() {
        lemma_none_usable(outputs, index + 1);
    }
}

proof fn lemma_unbroken_counts(outputs: Seq<OutputProbe>, index: int)
    requires
        unbroken(outputs),
        0 <= index,
    ensures
        leading_usable(outputs, index) == usable(outputs, index),
    decreases outputs.len() - index,
{
    if index < outputs.len() {
        if outputs[index] is Usable {
            lemma_unbroken_counts(outputs, index + 1);
        } else {
            assert forall|j: int| index + 1 <= j < outputs.len() implies !((
            #[trigger] outputs[j]) is Usable) by {
                if outputs[j] is Usable {
                    assert(outputs[index] is Usable);
                }
            }
            lemma_none_usable(outputs, index + 1);
        }
    }
}

proof fn lemma_unbroken_total(platform: Seq<Vec<OutputProbe>>, adapter: int)
    requires
        0 <= adapter,
        forall|a: int| 0 <= a < platform.len() ==> unbroken((#[trigger] platform[a])@),
    ensures
        leading_total(platform, adapter) == usable_total(platform, adapter),
    decreases platform.len() - adapter,
{
    if adapter < platform.len() {
        lemma_unbroken_counts(platform[adapter]@, 0);
        lemma_unbroken_total(platform, adapter + 1);
    }
}

/// A walk finds as many displays as the adapters have outputs that can be
/// duplicated before the first that is missing or cannot. Where no adapter
/// has a usable output behind such a one, that is the number of all outputs
/// that can be duplicated.
pub proof fn lemma_enumeration_len(platform: Seq<Vec<OutputProbe>>)
    ensures
        enumeration(platform).len() == leading_total(platform, 0),
        (forall|a: int| 0 <= a < platform.len() ==> unbroken((#[trigger] platform[a])@))
            ==> enumeration(platform).len() == usable_total(platform, 0),
{
    lemma_displays_from_len(platform, 0);
    if forall|a: int| 0 <= a < platform.len() ==> unbroken((#[trigger] platform[a])@) {
        lemma_unbroken_total(platform, 0);
    }
}

proof fn lemma_adapter_display(
    platform: Seq<Vec<OutputProbe>>,
    adapter: int,
    index: int,
    k: int,
)
    requires
        walkable(platform),
        0 <= adapter < platform.len(),
        0 <= index,
        0 <= k < adapter_displays(platform, adapter, index).len(),
    ensures
        ({
            let d = adapter_displays(platform, adapter, index)[k];
            &&& d.spec_adapter() == adapter
            &&& d.spec_output() == index + k
            &&& index + k < platform[adapter]@.len()
            &&& platform[adapter]@[index + k] == OutputProbe::Usable(d.spec_desc())
        }),
    decreases platform[adapter]@.len() - index,
{
    if k > 0 {
        lemma_adapter_display(platform, adapter, index + 1, k - 1);
    }
}

proof fn lemma_display_from(platform: Seq<Vec<OutputProbe>>, adapter: int, k: int)
    requires
        walkable(platform),
        0 <= adapter,
        0 <= k < displays_from(platform, adapter).len(),
    ensures
        ({
            let d = displays_from(platform, adapter)[k];
            probe_of(platform, d.spec_adapter() as int, d.spec_output() as int)
                == OutputProbe::Usable(d.spec_desc())
        }),
    decreases platform.len() - adapter,
{
    let here = adapter_displays(platform, adapter, 0);
    if k < here.len() {
        lemma_adapter_display(platform, adapter, 0, k);
    } else {
        lemma_display_from(platform, adapter + 1, k - here.len());
    }
}

/// Every display that a walk finds is an output that the platform reports
/// as usable, with the description that the platform gave of it. So its
/// width and height are the differences of the reported rectangle's edges,
/// and they are positive where the reported rectangle has an inside.
pub proof fn lemma_enumerated_display(platform: Seq<Vec<OutputProbe>>, k: int)
    requires
        walkable(platform),
        0 <= k < enumeration(platform).len(),
    ensures
        ({
            let d = enumeration(platform)[k];
            let reported = probe_of(platform, d.spec_adapter() as int, d.spec_output() as int);
            &&& reported == OutputProbe::Usable(d.spec_desc())
            &&& d.spec_desc().coordinates.spec_width() == reported->Usable_0.coordinates.right
                - reported->Usable_0.coordinates.left
            &&& d.spec_desc().coordinates.spec_height() == reported->Usable_0.coordinates.bottom
                - reported->Usable_0.coordinates.top
            &&& reported->Usable_0.coordinates.spec_proper() ==> {
                &&& d.spec_desc().coordinates.spec_width() > 0
                &&& d.spec_desc().coordinates.spec_height() > 0
            }
        }),
{
    lemma_display_from(platform, 0, k);
}

} // verus!
