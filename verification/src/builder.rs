use crate::config::Config;
use crate::defaults::{find_sep, parse_common_value, run_lines, spec_lines, split_lines, step_line};
use crate::error::{ConfigError, ErrorModel};
use crate::store::{apply_pairs, entries_map, layer_model};
use crate::value::{ParamValue, ValueModel};
use vstd::prelude::*;

verus! {

/// Accumulates a mapping from parameter path to tagged value across ordered
/// layers, one layer at a time, and finalizes it as an immutable [`Config`].
/// Each layer application consumes and returns the builder, fixing the
/// application order: defaults, then the config file, then the environment,
/// then the command line.
#[derive(Debug)]
pub struct ConfigurationBuilder {
    pub(crate) entries: Vec<(String, ParamValue)>,
}

impl View for ConfigurationBuilder {
    type V = Map<Seq<char>, ValueModel>;

    closed spec fn view(&self) -> Map<Seq<char>, ValueModel> {
        entries_map(self.entries@)
    }
}

/// The builder's mapping is the one its entries denote.
pub(crate) proof fn lemma_builder_view(b: &ConfigurationBuilder)
    ensures
        b@ == entries_map(b.entries@),
{
}

/// Stores one resolved record of the default layer.
fn apply_line(b: &mut ConfigurationBuilder, line: &str) -> (r: Result<(), ConfigError>)
    ensures
        match r {
            Ok(_) => step_line(old(b)@, line@) == Ok::<Map<Seq<char>, ValueModel>, ErrorModel>(
                final(b)@,
            ),
            Err(e) => step_line(old(b)@, line@) == Err::<Map<Seq<char>, ValueModel>, ErrorModel>(
                e@,
            ) && final(b)@ == old(b)@,
        },
{
    let n = line.unicode_len();
    if n == 0 {
        return Ok(());
    }
    if n >= 2 && line.get_char(0) == '/' && line.get_char(1) == '/' {
        return Ok(());
    }
    let j = match find_sep(line) {
        None => {
            return Err(ConfigError::MalformedRecord(line.to_owned()));
        },
        Some(j) => j,
    };
    let key = line.substring_char(0, j).to_owned();
    let raw = line.substring_char(j + 3, n).to_owned();
    let resolved = match parse_common_value(b, raw) {
        Ok(s) => s,
        Err(e) => {
            return Err(e);
        },
    };
    let ghost before = b.entries@;
    b.entries.push((key, ParamValue::Text(resolved)));
    proof {
        assert(b.entries@.drop_last() =~= before);
    }
    Ok(())
}

impl ConfigurationBuilder {
    /// Reads the default layer from the compiled-in text resource, record by
    /// record, resolving `${path}` interpolation against the records already
    /// processed. Succeeds exactly when every record is blank, a comment, or a
    /// well-formed `key = value` pair whose interpolation (if any) references
    /// an already-defined, text-bearing path.
    pub fn apply_default(default_config: &str) -> (r: Result<Self, ConfigError>)
        ensures
            match r {
                Ok(b) => run_lines(Map::empty(), spec_lines(default_config@)) == Ok::<
                    Map<Seq<char>, ValueModel>,
                    ErrorModel,
                >(b@),
                Err(e) => run_lines(Map::empty(), spec_lines(default_config@)) == Err::<
                    Map<Seq<char>, ValueModel>,
                    ErrorModel,
                >(e@),
            },
    {
        let lines = split_lines(default_config);
        let mut b = ConfigurationBuilder { entries: Vec::new() };
        proof {
            assert(b.entries@ =~= Seq::<(String, ParamValue)>::empty());
            assert(b@ =~= Map::<Seq<char>, ValueModel>::empty());
            assert(lines.deep_view().skip(0) =~= lines.deep_view());
        }
        let mut i: usize = 0;
        while i < lines.len()
            invariant
                i <= lines@.len(),
                lines.deep_view() == spec_lines(default_config@),
                run_lines(Map::empty(), spec_lines(default_config@)) == run_lines(
                    b@,
                    lines.deep_view().skip(i as int),
                ),
            decreases lines@.len() - i,
        {
            let ghost rest = lines.deep_view().skip(i as int);
            proof {
                assert(rest[0] == lines.deep_view()[i as int]);
                assert(rest.drop_first() =~= lines.deep_view().skip(i as int + 1));
            }
            match apply_line(&mut b, lines[i].as_str()) {
                Ok(_) => {},
                Err(e) => {
                    return Err(e);
                },
            }
            i = i + 1;
        }
        proof {
            assert(lines.deep_view().skip(lines@.len() as int) =~= Seq::<Seq<char>>::empty());
        }
        Ok(b)
    }

    /// Applies the config-file layer's contribution: every (path, value) pair
    /// inserts-or-overwrites its path; paths absent from the layer keep their
    /// prior value.
    pub fn apply_config_file(self, layer: &Vec<(String, ParamValue)>) -> (r: Self)
        ensures
            r@ == apply_pairs(self@, layer_model(layer@)),
    {
        self.apply_layer(layer)
    }

    /// Applies the environment layer's contribution, exactly as
    /// [`Self::apply_config_file`] does its own.
    pub fn apply_env(self, layer: &Vec<(String, ParamValue)>) -> (r: Self)
        ensures
            r@ == apply_pairs(self@, layer_model(layer@)),
    {
        self.apply_layer(layer)
    }

    /// Applies the command-line layer's contribution, exactly as
    /// [`Self::apply_config_file`] does its own.
    pub fn apply_command_line(self, layer: &Vec<(String, ParamValue)>) -> (r: Self)
        ensures
            r@ == apply_pairs(self@, layer_model(layer@)),
    {
        self.apply_layer(layer)
    }

    /// Inserts-or-overwrites every pair of one layer, in order.
    fn apply_layer(self, layer: &Vec<(String, ParamValue)>) -> (r: Self)
        ensures
            r@ == apply_pairs(self@, layer_model(layer@)),
    {
        let mut b = self;
        let ghost m0 = b@;
        let mut i: usize = 0;
        while i < layer.len()
            invariant
                i <= layer@.len(),
                b@ == apply_pairs(m0, layer_model(layer@).take(i as int)),
            decreases layer@.len() - i,
        {
            let pair = &layer[i];
            let ghost before = b.entries@;
            b.entries.push((pair.0.clone(), pair.1.duplicate()));
            proof {
                assert(b.entries@.drop_last() =~= before);
                let ps = layer_model(layer@);
                assert(ps.take(i as int + 1).drop_last() =~= ps.take(i as int));
                assert(ps.take(i as int + 1).last() == ps[i as int]);
            }
            i = i + 1;
        }
        proof {
            assert(layer_model(layer@).take(layer@.len() as int) =~= layer_model(layer@));
        }
        b
    }

    /// Consumes the builder and yields the immutable configuration snapshot
    /// holding exactly the accumulated mapping.
    pub fn build(self) -> (c: Config)
        ensures
            c@ == self@,
    {
        Config::from_entries(self.entries)
    }
}

} // verus!
