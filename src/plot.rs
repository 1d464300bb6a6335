//! A document: the traces of one chart, serialized together.
use vstd::prelude::*;

use crate::json::{array_text, object_text, ArrayWriter, JsonSerialize, ObjectWriter};

verus! {

/// The traces of one chart, each kept as the JSON text it serialized to.
pub struct Plot {
    traces: Vec<String>,
}

impl Plot {
    /// The JSON texts of the traces, in the order they were added.
    pub closed spec fn trace_texts(&self) -> Seq<Seq<char>> {
        self.traces@.map_values(|t: String| t@)
    }

    /// A document with no trace.
    pub fn new() -> (r: Plot)
        ensures
            r.trace_texts() == Seq::<Seq<char>>::empty(),
    {
        let r = Plot { traces: Vec::new() };
        proof {
            assert(r.trace_texts() =~= Seq::<Seq<char>>::empty());
        }
        r
    }

    /// Adds a trace after those already added.
    pub fn add_trace<T: JsonSerialize>(&mut self, trace: Box<T>)
        ensures
            final(self).trace_texts() == old(self).trace_texts().push(trace.json_text()),
    {
        let text = trace.to_json();
        self.traces.push(text);
        proof {
            assert(self.trace_texts() =~= old(self).trace_texts().push(trace.json_text()));
        }
    }
}

impl JsonSerialize for Plot {
    /// An object whose `data` member is the array of the traces.
    open spec fn json_text(&self) -> Seq<char> {
        object_text(seq![("data"@, array_text(self.trace_texts()))])
    }

    fn to_json(&self) -> (r: String) {
        let mut data = ArrayWriter::new();
        let mut i: usize = 0;
        while i < self.traces.len()
            invariant
                i <= self.traces@.len(),
                data.wf(),
                data.elements() == self.trace_texts().subrange(0, i as int),
            decreases self.traces@.len() - i,
        {
            data.element(self.traces[i].as_str());
            proof {
                assert(data.elements() =~= self.trace_texts().subrange(0, i + 1));
            }
            i = i + 1;
        }
        proof {
            assert(self.trace_texts().subrange(0, i as int) =~= self.trace_texts());
        }
        let data = data.finish();
        let mut w = ObjectWriter::new();
        w.member("data", data.as_str());
        proof {
            assert(w.members() =~= seq![("data"@, array_text(self.trace_texts()))]);
        }
        w.finish()
    }
}

} // verus!
