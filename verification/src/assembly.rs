//! Assembling the builder for a platform, in two ways that come to the same.

use vstd::prelude::*;
use crate::builder::Builder;
use crate::platform::Platform;
use crate::plugin::{catalogue, plugins_for, registry, selected, Plugin};

verus! {

/// Assembles the builder for `platform` by a chain of registrations, each
/// handing the builder on: the three plugins that every platform gets, then,
/// on a desktop, the updater.
pub fn assemble(platform: Platform) -> (builder: Builder)
    ensures
        builder@ == plugins_for(platform),
{
    let builder = Builder::new()
        .plugin(Plugin::OsInfo)
        .plugin(Plugin::Process)
        .plugin(Plugin::Opener);
    let builder = if platform.is_desktop() {
        builder.plugin(Plugin::Updater)
    } else {
        builder
    };
    builder
}

/// Assembles the builder for `platform` by walking the registry and adding to
/// one builder, in place, each plugin that the platform gets. The result is
/// that of [`assemble`].
pub fn assemble_accumulating(platform: Platform) -> (builder: Builder)
    ensures
        builder@ == selected(catalogue(), platform),
        builder@ == plugins_for(platform),
{
    let all = registry();
    let mut builder = Builder::new();
    proof {
        lemma_selected_of_none(platform);
        assert(all@.take(0) == Seq::<Plugin>::empty());
    }
    let mut i: usize = 0;
    while i < all.len()
        invariant
            i <= all.len(),
            builder@ == selected(all@.take(i as int), platform),
        decreases all.len() - i,
    {
        let candidate = all[i];
        proof {
            lemma_selected_step(all@, platform, i as int);
        }
        if candidate.is_available_on(platform) {
            builder.register(candidate);
        }
        i += 1;
    }
    proof {
        assert(all@.take(all.len() as int) == all@);
        lemma_assemblies_agree(platform);
    }
    builder
}

/// Of no plugins none is selected.
proof fn lemma_selected_of_none(platform: Platform)
    ensures
        selected(Seq::<Plugin>::empty(), platform) == Seq::<Plugin>::empty(),
{
    reveal(Seq::filter);
}

/// Selecting among the first `i + 1` plugins of `all` is selecting among the
/// first `i`, followed by the plugin at `i` where the platform gets it.
proof fn lemma_selected_step(all: Seq<Plugin>, platform: Platform, i: int)
    requires
        0 <= i < all.len(),
    ensures
        selected(all.take(i + 1), platform) == if all[i].available_on(platform) {
            selected(all.take(i), platform).push(all[i])
        } else {
            selected(all.take(i), platform)
        },
{
    reveal(Seq::filter);
    assert(all.take(i + 1).drop_last() == all.take(i));
    assert(all.take(i + 1).last() == all[i]);
}

/// The two ways of assembling agree: on every platform, walking the registry
/// selects exactly the plugins that the chain of registrations adds, in the
/// same order.
pub proof fn lemma_assemblies_agree(platform: Platform)
    ensures
        selected(catalogue(), platform) == plugins_for(platform),
{
    let all = catalogue();
    lemma_selected_of_none(platform);
    assert(all.take(0) == Seq::<Plugin>::empty());
    lemma_selected_step(all, platform, 0);
    lemma_selected_step(all, platform, 1);
    lemma_selected_step(all, platform, 2);
    lemma_selected_step(all, platform, 3);
    assert(all.take(4) == all);
}

} // verus!
