use vstd::prelude::*;

verus! {

/// The most input channels a plot node offers.
pub const MAX_PLOT_INPUTS: usize = 8;

/// The channels after the "+" button: one more, with history `fresh`,
/// unless there are `MAX_PLOT_INPUTS` already.
pub open spec fn after_add<H>(channels: Seq<H>, fresh: H) -> Seq<H> {
    if channels.len() < MAX_PLOT_INPUTS {
        channels.push(fresh)
    } else {
        channels
    }
}

/// The channels after the "-" button: the last one goes, unless it is the
/// only one.
pub open spec fn after_remove<H>(channels: Seq<H>) -> Seq<H> {
    if channels.len() > 1 {
        channels.drop_last()
    } else {
        channels
    }
}

/// The input channels of a plot node: one history per input pin, and the
/// number of input pins.
#[derive(Clone, Debug)]
pub struct PlotInputs<H> {
    histories: Vec<H>,
    num_inputs: usize,
}

impl<H> PlotInputs<H> {
    /// The number of inputs and the number of histories agree, and a plot has
    /// between one and `MAX_PLOT_INPUTS` inputs.
    pub closed spec fn wf(self) -> bool {
        &&& self.histories.len() == self.num_inputs
        &&& 1 <= self.num_inputs <= MAX_PLOT_INPUTS
    }

    /// The histories, one per input, in the order of the input pins.
    pub closed spec fn channels(self) -> Seq<H> {
        self.histories@
    }

    /// The number of input pins.
    pub closed spec fn inputs(self) -> nat {
        self.num_inputs as nat
    }

    /// Well-formedness, stated over the model.
    pub proof fn lemma_wf(self)
        requires
            self.wf(),
        ensures
            self.inputs() == self.channels().len(),
            1 <= self.inputs() <= MAX_PLOT_INPUTS,
    {
    }

    /// A plot with one input, whose history is `first`.
    pub fn new(first: H) -> (res: Self)
        ensures
            res.wf(),
            res.channels() == seq![first],
    {
        let mut histories: Vec<H> = Vec::new();
        histories.push(first);
        PlotInputs { histories, num_inputs: 1 }
    }

    /// The number of input pins.
    pub fn num_inputs(&self) -> (res: usize)
        requires
            self.wf(),
        ensures
            res == self.inputs(),
            res == self.channels().len(),
    {
        self.num_inputs
    }

    /// The "+" button: a new input with history `fresh` is added unless the
    /// plot has `MAX_PLOT_INPUTS` inputs already. Returns whether it was.
    pub fn add_input(&mut self, fresh: H) -> (added: bool)
        requires
            old(self).wf(),
        ensures
            final(self).wf(),
            added == (old(self).inputs() < MAX_PLOT_INPUTS),
            final(self).channels() == after_add(old(self).channels(), fresh),
    {
        if self.num_inputs < MAX_PLOT_INPUTS {
            self.histories.push(fresh);
            self.num_inputs = self.num_inputs + 1;
            true
        } else {
            false
        }
    }

    /// The "-" button: the last input is removed, and its history handed
    /// back, unless the plot has a single input.
    pub fn remove_input(&mut self) -> (removed: Option<H>)
        requires
            old(self).wf(),
        ensures
            final(self).wf(),
            removed is Some <==> old(self).inputs() > 1,
            removed matches Some(h) ==> h == old(self).channels().last(),
            final(self).channels() == after_remove(old(self).channels()),
    {
        if self.num_inputs > 1 {
            let h = self.histories.pop();
            self.num_inputs = self.num_inputs - 1;
            h
        } else {
            None
        }
    }

    /// The history of input `input`, if the plot has such an input.
    pub fn channel(&self, input: usize) -> (res: Option<&H>)
        requires
            self.wf(),
        ensures
            input < self.channels().len() ==> res == Some(&self.channels()[input as int]),
            input >= self.channels().len() ==> res is None,
    {
        if input < self.histories.len() {
            Some(&self.histories[input])
        } else {
            None
        }
    }

    /// The history of input `input` to update in place, if the plot has such
    /// an input.
    pub fn channel_mut(&mut self, input: usize) -> (res: Option<&mut H>)
        requires
            old(self).wf(),
        ensures
            input >= old(self).channels().len() ==> res is None && *final(self) == *old(self),
            final(self).wf(),
            input < old(self).channels().len() ==> (res matches Some(r) && {
                &&& *r == old(self).channels()[input as int]
                &&& final(self).channels() == old(self).channels().update(input as int, *final(r))
                &&& final(self).inputs() == old(self).inputs()
            }),
    {
        if input < self.histories.len() {
            Some(&mut self.histories[input])
        } else {
            None
        }
    }
}

/// Pressing "+" and then "-" on a plot with room for another input leaves
/// its channels as they were.
pub proof fn lemma_add_then_remove<H>(channels: Seq<H>, fresh: H)
    requires
        1 <= channels.len() < MAX_PLOT_INPUTS,
    ensures
        after_remove(after_add(channels, fresh)) == channels,
{
    assert(channels.push(fresh).drop_last() =~= channels);
}

/// Pressing "-" and then "+" on a plot with more than one input changes
/// only the history of its last input, to `fresh`.
pub proof fn lemma_remove_then_add<H>(channels: Seq<H>, fresh: H)
    requires
        1 < channels.len() <= MAX_PLOT_INPUTS,
    ensures
        after_add(after_remove(channels), fresh) == channels.update(channels.len() - 1, fresh),
{
    assert(channels.drop_last().push(fresh) =~= channels.update(channels.len() - 1, fresh));
}

/// The buttons keep the number of inputs between one and
/// `MAX_PLOT_INPUTS`.
pub proof fn lemma_buttons_keep_bounds<H>(channels: Seq<H>, fresh: H)
    requires
        1 <= channels.len() <= MAX_PLOT_INPUTS,
    ensures
        1 <= after_add(channels, fresh).len() <= MAX_PLOT_INPUTS,
        1 <= after_remove(channels).len() <= MAX_PLOT_INPUTS,
{
}

} // verus!
