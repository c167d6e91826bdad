//! Frames: what a read of the channel gave, which reads carry a frame worth
//! echoing, and the fixed frames that the generator sends.

use crate::config::TemplateSize;
use vstd::prelude::*;

verus! {

/// The shortest frame that is echoed, in bytes.
pub const MIN_FRAME_LEN: usize = 60;

/// The most that one read of the channel is asked for, in bytes.
pub const MAX_FRAME_LEN: usize = 2048;

/// What one read of the channel gave.
#[derive(Debug, PartialEq, Eq)]
pub enum ChannelRead {
    /// The bytes that were read, all of them and nothing else.
    Data(Vec<u8>),
    /// Nothing was there to read; the channel does not wait.
    NoData,
    /// The read failed.
    Failed,
}

/// The mathematical content of a [`ChannelRead`].
pub enum ChannelReadView {
    Data(Seq<u8>),
    NoData,
    Failed,
}

impl View for ChannelRead {
    type V = ChannelReadView;

    open spec fn view(&self) -> ChannelReadView {
        match self {
            ChannelRead::Data(bytes) => ChannelReadView::Data(bytes@),
            ChannelRead::NoData => ChannelReadView::NoData,
            ChannelRead::Failed => ChannelReadView::Failed,
        }
    }
}

/// What a read amounts to for the mirror.
#[derive(Debug, PartialEq, Eq)]
pub enum ReadOutcome {
    /// A frame of at least [`MIN_FRAME_LEN`] bytes: it is echoed.
    Delivered(Vec<u8>),
    /// A frame, but one too short to be echoed.
    TooShort,
    /// No frame: the channel had nothing, gave no byte, or failed.
    NoDataOrError,
}

/// The mathematical content of a [`ReadOutcome`].
pub enum ReadOutcomeView {
    Delivered(Seq<u8>),
    TooShort,
    NoDataOrError,
}

impl View for ReadOutcome {
    type V = ReadOutcomeView;

    open spec fn view(&self) -> ReadOutcomeView {
        match self {
            ReadOutcome::Delivered(bytes) => ReadOutcomeView::Delivered(bytes@),
            ReadOutcome::TooShort => ReadOutcomeView::TooShort,
            ReadOutcome::NoDataOrError => ReadOutcomeView::NoDataOrError,
        }
    }
}

impl ChannelReadView {
    /// What the read amounts to. Only a frame of at least [`MIN_FRAME_LEN`]
    /// bytes is delivered, and then byte for byte. A read without a single
    /// byte counts as no data, like an empty channel and a failure.
    pub open spec fn classify(self) -> ReadOutcomeView {
        match self {
            ChannelReadView::Data(bytes) => if bytes.len() >= MIN_FRAME_LEN {
                ReadOutcomeView::Delivered(bytes)
            } else if bytes.len() > 0 {
                ReadOutcomeView::TooShort
            } else {
                ReadOutcomeView::NoDataOrError
            },
            ChannelReadView::NoData => ReadOutcomeView::NoDataOrError,
            ChannelReadView::Failed => ReadOutcomeView::NoDataOrError,
        }
    }
}

impl ChannelRead {
    /// Sorts the read into the three outcomes that the mirror tells apart.
    pub fn classify(self) -> (outcome: ReadOutcome)
        ensures
            outcome@ == self@.classify(),
    {
        match self {
            ChannelRead::Data(bytes) => if bytes.len() >= MIN_FRAME_LEN {
                ReadOutcome::Delivered(bytes)
            } else if bytes.len() > 0 {
                ReadOutcome::TooShort
            } else {
                ReadOutcome::NoDataOrError
            },
            ChannelRead::NoData => ReadOutcome::NoDataOrError,
            ChannelRead::Failed => ReadOutcome::NoDataOrError,
        }
    }
}

/// Whether a frame of `len` bytes can serve as a template.
pub open spec fn is_template_len(len: nat) -> bool {
    len == TemplateSize::Small.spec_len() || len == TemplateSize::Standard.spec_len()
}

/// A frame that the generator sends: fixed bytes, 60 or 1500 of them.
#[derive(Debug, PartialEq, Eq)]
pub struct TemplateFrame {
    bytes: Vec<u8>,
}

impl View for TemplateFrame {
    type V = Seq<u8>;

    closed spec fn view(&self) -> Seq<u8> {
        self.bytes@
    }
}

impl TemplateFrame {
    #[verifier::type_invariant]
    spec fn well_formed(self) -> bool {
        is_template_len(self.bytes@.len())
    }

    /// Takes `bytes` as a template. They are accepted, unchanged, where there
    /// are 60 or 1500 of them, and refused otherwise.
    pub fn new(bytes: Vec<u8>) -> (frame: Option<TemplateFrame>)
        ensures
            frame is Some <==> is_template_len(bytes@.len()),
            frame matches Some(made) ==> made@ == bytes@,
    {
        if bytes.len() == TemplateSize::Small.len() || bytes.len() == TemplateSize::Standard.len() {
            Some(TemplateFrame { bytes })
        } else {
            None
        }
    }

    /// Which of the two sizes the template has.
    pub fn size(&self) -> (size: TemplateSize)
        ensures
            size.spec_len() == self@.len(),
    {
        proof {
            use_type_invariant(self);
        }
        if self.bytes.len() == TemplateSize::Small.len() {
            TemplateSize::Small
        } else {
            TemplateSize::Standard
        }
    }

    /// The template's bytes.
    pub fn as_bytes(&self) -> (bytes: &Vec<u8>)
        ensures
            bytes@ == self@,
            is_template_len(bytes@.len()),
    {
        proof {
            use_type_invariant(self);
        }
        &self.bytes
    }

    /// A fresh copy of the template's bytes.
    pub fn to_bytes(&self) -> (bytes: Vec<u8>)
        ensures
            bytes@ == self@,
            is_template_len(bytes@.len()),
    {
        proof {
            use_type_invariant(self);
        }
        self.bytes.clone()
    }
}

/// The templates that the generator chooses from, one of each size.
#[derive(Debug, PartialEq, Eq)]
pub struct Templates {
    small: TemplateFrame,
    standard: TemplateFrame,
}

/// The mathematical content of a [`Templates`].
pub struct TemplatesView {
    pub small: Seq<u8>,
    pub standard: Seq<u8>,
}

impl TemplatesView {
    /// Each template has the length of its size.
    pub open spec fn well_formed(self) -> bool {
        &&& self.small.len() == TemplateSize::Small.spec_len()
        &&& self.standard.len() == TemplateSize::Standard.spec_len()
    }

    /// The template of the given size.
    pub open spec fn of_size(self, size: TemplateSize) -> Seq<u8> {
        match size {
            TemplateSize::Small => self.small,
            TemplateSize::Standard => self.standard,
        }
    }
}

impl View for Templates {
    type V = TemplatesView;

    closed spec fn view(&self) -> TemplatesView {
        TemplatesView { small: self.small@, standard: self.standard@ }
    }
}

impl Templates {
    #[verifier::type_invariant]
    spec fn well_formed(self) -> bool {
        self@.well_formed()
    }

    /// Pairs a small and a standard template. The pair is made where
    /// `small` has 60 bytes and `standard` 1500, and refused otherwise.
    pub fn new(small: TemplateFrame, standard: TemplateFrame) -> (templates: Option<Templates>)
        ensures
            templates is Some <==> (TemplatesView {
                small: small@,
                standard: standard@,
            }).well_formed(),
            templates matches Some(made) ==> made@ == (TemplatesView {
                small: small@,
                standard: standard@,
            }),
    {
        if small.as_bytes().len() == TemplateSize::Small.len() && standard.as_bytes().len()
            == TemplateSize::Standard.len() {
            Some(Templates { small, standard })
        } else {
            None
        }
    }

    /// Hands out the template of the given size.
    pub fn take(self, size: TemplateSize) -> (frame: TemplateFrame)
        ensures
            frame@ == self@.of_size(size),
            frame@.len() == size.spec_len(),
    {
        proof {
            use_type_invariant(&self);
        }
        match size {
            TemplateSize::Small => self.small,
            TemplateSize::Standard => self.standard,
        }
    }
}

} // verus!
